use vstd::prelude::*;

use crate::registry::ServiceDef;

verus! {

/// Each element is smaller than the next: sorted with no repeats.
pub open spec fn strictly_ascending(s: Seq<u32>) -> bool {
    forall|i: int, j: int| 0 <= i < j < s.len() ==> s[i] < s[j]
}

/// `pid` appears among the listeners of some port in `listeners`.
pub open spec fn listens(listeners: Seq<Seq<u32>>, pid: u32) -> bool {
    exists|i: int| 0 <= i < listeners.len() && listeners[i].contains(pid)
}

/// Some port in `listeners` has at least one listener.
pub open spec fn any_listener(listeners: Seq<Seq<u32>>) -> bool {
    exists|i: int| 0 <= i < listeners.len() && listeners[i].len() > 0
}

/// The probe results of a service's ports merged: every listening pid once,
/// in ascending order.
pub open spec fn is_pid_union(listeners: Seq<Seq<u32>>, r: Seq<u32>) -> bool {
    &&& strictly_ascending(r)
    &&& forall|p: u32| r.contains(p) <==> listens(listeners, p)
}

/// The merged pid list of `listeners`.
pub open spec fn pid_union(listeners: Seq<Seq<u32>>) -> Seq<u32> {
    choose|u: Seq<u32>| is_pid_union(listeners, u)
}

/// Two ascending lists without repeats that hold the same pids are equal: the
/// merged pid list of a set of probes is unique.
pub proof fn ascending_lists_equal(a: Seq<u32>, b: Seq<u32>)
    requires
        strictly_ascending(a),
        strictly_ascending(b),
        forall|p: u32| a.contains(p) <==> b.contains(p),
    ensures
        a == b,
    decreases a.len(),
{
    if a.len() == 0 {
        if b.len() > 0 {
            assert(b.contains(b[0]));
        }
        assert(a =~= b);
    } else {
        assert(a.contains(a[0]));
        let k = choose|k: int| 0 <= k < b.len() && b[k] == a[0];
        assert(b.contains(b[0]));
        let m = choose|m: int| 0 <= m < a.len() && a[m] == b[0];
        assert(a[0] == b[0]);
        let ta = a.drop_first();
        let tb = b.drop_first();
        assert forall|p: u32| ta.contains(p) <==> tb.contains(p) by {
            if ta.contains(p) {
                let i = choose|i: int| 0 <= i < ta.len() && ta[i] == p;
                assert(a[i + 1] == p);
                assert(a.contains(p));
                let j = choose|j: int| 0 <= j < b.len() && b[j] == p;
                assert(j != 0);
                assert(tb[j - 1] == p);
            }
            if tb.contains(p) {
                let i = choose|i: int| 0 <= i < tb.len() && tb[i] == p;
                assert(b[i + 1] == p);
                assert(b.contains(p));
                let j = choose|j: int| 0 <= j < a.len() && a[j] == p;
                assert(j != 0);
                assert(ta[j - 1] == p);
            }
        }
        ascending_lists_equal(ta, tb);
        assert(a =~= seq![a[0]] + ta);
        assert(b =~= seq![b[0]] + tb);
    }
}

fn insert_sorted(v: &mut Vec<u32>, p: u32)
    requires
        strictly_ascending(old(v)@),
    ensures
        strictly_ascending(final(v)@),
        forall|x: u32| final(v)@.contains(x) <==> (old(v)@.contains(x) || x == p),
{
    let mut j: usize = 0;
    while j < v.len() && v[j] < p
        invariant
            0 <= j <= v@.len(),
            v@ == old(v)@,
            strictly_ascending(v@),
            forall|k: int| 0 <= k < j ==> v@[k] < p,
        decreases v@.len() - j,
    {
        j = j + 1;
    }
    if j < v.len() && v[j] == p {
        assert(v@[j as int] == p);
        assert(v@.contains(p));
        return;
    }
    let ghost before = v@;
    assert(before == old(v)@);
    v.insert(j, p);
    assert(v@ =~= before.subrange(0, j as int).push(p) + before.subrange(j as int, before.len() as int));
    assert forall|a: int, b: int| 0 <= a < b < v@.len() implies v@[a] < v@[b] by {
        if b < j {
        } else if b == j {
        } else if a < j {
            assert(before[b - 1] > p || before[b - 1] == before[j as int] || before[j as int] <= before[b - 1]);
        } else if a == j {
            assert(before[j as int] >= p);
        }
    }
    assert forall|x: u32| v@.contains(x) <==> (before.contains(x) || x == p) by {
        if v@.contains(x) {
            let k = choose|k: int| 0 <= k < v@.len() && v@[k] == x;
            if k < j {
                assert(before[k] == x);
            } else if k > j {
                assert(before[k - 1] == x);
            }
        }
        if before.contains(x) {
            let k = choose|k: int| 0 <= k < before.len() && before[k] == x;
            if k < j {
                assert(v@[k] == x);
            } else {
                assert(v@[k + 1] == x);
            }
        }
        if x == p {
            assert(v@[j as int] == p);
        }
    }
    assert(forall|x: u32| v@.contains(x) <==> (old(v)@.contains(x) || x == p));
}

/// Merges the listeners found on each port of a service into one ascending
/// list without repeats.
pub fn collect_pids(listeners: &Vec<Vec<u32>>) -> (r: Vec<u32>)
    ensures
        is_pid_union(listeners.deep_view(), r@),
        r@ == pid_union(listeners.deep_view()),
{
    let mut r: Vec<u32> = Vec::new();
    let mut i: usize = 0;
    while i < listeners.len()
        invariant
            0 <= i <= listeners@.len(),
            strictly_ascending(r@),
            forall|p: u32| r@.contains(p) <==> listens(listeners.deep_view().take(i as int), p),
        decreases listeners@.len() - i,
    {
        let port_pids = &listeners[i];
        let mut j: usize = 0;
        while j < port_pids.len()
            invariant
                0 <= i < listeners@.len(),
                port_pids@ == listeners.deep_view()[i as int],
                0 <= j <= port_pids@.len(),
                strictly_ascending(r@),
                forall|p: u32|
                    r@.contains(p) <==> (listens(listeners.deep_view().take(i as int), p)
                        || port_pids@.take(j as int).contains(p)),
            decreases port_pids@.len() - j,
        {
            let ghost prev = r@;
            insert_sorted(&mut r, port_pids[j]);
            let ghost a = port_pids@.take(j as int);
            let ghost b = port_pids@.take(j + 1);
            assert(b =~= a.push(port_pids@[j as int]));
            assert forall|p: u32|
                r@.contains(p) <==> (listens(listeners.deep_view().take(i as int), p)
                    || b.contains(p)) by {
                if a.contains(p) {
                    let k = choose|k: int| 0 <= k < a.len() && a[k] == p;
                    assert(b[k] == p);
                }
                if b.contains(p) {
                    let k = choose|k: int| 0 <= k < b.len() && b[k] == p;
                    if k < j {
                        assert(a[k] == p);
                    }
                }
                assert(b[j as int] == port_pids@[j as int]);
            }
            j = j + 1;
        }
        let ghost l = listeners.deep_view();
        let ghost lo = l.take(i as int);
        let ghost hi = l.take(i + 1);
        assert(port_pids@.take(j as int) =~= port_pids@);
        assert(hi =~= lo.push(l[i as int]));
        assert forall|p: u32| listens(hi, p) <==> (listens(lo, p) || l[i as int].contains(p)) by {
            if listens(hi, p) {
                let k = choose|k: int| 0 <= k < hi.len() && hi[k].contains(p);
                if k < i {
                    assert(lo[k] == hi[k]);
                }
            }
            if listens(lo, p) {
                let k = choose|k: int| 0 <= k < lo.len() && lo[k].contains(p);
                assert(hi[k] == lo[k]);
            }
            if l[i as int].contains(p) {
                assert(hi[i as int] == l[i as int]);
            }
        }
        i = i + 1;
    }
    assert(listeners.deep_view().take(i as int) =~= listeners.deep_view());
    proof {
        let l = listeners.deep_view();
        assert(is_pid_union(l, r@));
        ascending_lists_equal(pid_union(l), r@);
    }
    r
}

/// Whether a service runs, given the listeners found on each of its ports:
/// true exactly when some port has a listener.
pub fn service_running(listeners: &Vec<Vec<u32>>) -> (r: bool)
    ensures
        r == any_listener(listeners.deep_view()),
{
    let mut i: usize = 0;
    while i < listeners.len()
        invariant
            0 <= i <= listeners@.len(),
            forall|k: int| 0 <= k < i ==> (#[trigger] listeners.deep_view()[k]).len() == 0,
        decreases listeners@.len() - i,
    {
        if listeners[i].len() > 0 {
            assert(listeners.deep_view()[i as int].len() > 0);
            return true;
        }
        i = i + 1;
    }
    false
}

/// Liveness of one service, derived from its port probes.
#[derive(Clone, Debug, PartialEq, Eq)]
pub struct ServiceStatus {
    pub id: String,
    pub running: bool,
    pub ports: Vec<u16>,
    pub pids: Vec<u32>,
}

/// Liveness of one port.
#[derive(Clone, Debug, PartialEq, Eq)]
pub struct PortInfo {
    pub port: u16,
    pub running: bool,
    pub pids: Vec<u32>,
}

/// The status of `service`, where `listeners[i]` holds the pids found
/// listening on its `i`-th port.
pub fn service_status(service: &ServiceDef, listeners: &Vec<Vec<u32>>) -> (r: ServiceStatus)
    ensures
        r.id@ == service.id@,
        r.ports@ == service.ports@,
        r.pids@ == pid_union(listeners.deep_view()),
        is_pid_union(listeners.deep_view(), r.pids@),
        r.running == any_listener(listeners.deep_view()),
        r.running == (r.pids@.len() > 0),
{
    let pids = collect_pids(listeners);
    let running = pids.len() > 0;
    proof {
        let l = listeners.deep_view();
        if running {
            let p = pids@[0];
            assert(pids@.contains(p));
            let k = choose|k: int| 0 <= k < l.len() && l[k].contains(p);
            assert(l[k].len() > 0);
        }
        if any_listener(l) {
            let k = choose|k: int| 0 <= k < l.len() && l[k].len() > 0;
            let p = l[k][0];
            assert(l[k].contains(p));
            assert(listens(l, p));
            assert(pids@.contains(p));
        }
    }
    ServiceStatus { id: service.id.clone(), running, ports: service.ports.clone(), pids }
}

/// The status of `port`, given the pids found listening on it; nothing else
/// is consulted.
pub fn port_status(port: u16, pids: Vec<u32>) -> (r: PortInfo)
    ensures
        r.port == port,
        r.pids@ == pids@,
        r.running == (pids@.len() > 0),
{
    let running = pids.len() > 0;
    PortInfo { port, running, pids }
}

/// The ports whose status is reported: every service port and a few
/// auxiliary ones, ascending.
pub open spec fn watched() -> Seq<u16> {
    seq![3000u16, 3001, 3100, 4000, 4174, 5173]
}

pub fn watch_ports() -> (r: Vec<u16>)
    ensures
        r@ == watched(),
{
    let r: Vec<u16> = vec![3000, 3001, 3100, 4000, 4174, 5173];
    assert(r@ =~= watched());
    r
}

} // verus!
