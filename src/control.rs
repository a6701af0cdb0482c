use vstd::prelude::*;
use vstd::string::StringExecFns;

use crate::liveness::{any_listener, collect_pids, listens, pid_union};
use crate::registry::ServiceDef;

verus! {

/// One step of stopping the listeners of a service.
#[derive(Clone, Copy, Debug, PartialEq, Eq, Structural)]
pub enum KillStep {
    /// Ask this process to terminate cleanly.
    Terminate(u32),
    /// Wait the grace period.
    Wait,
    /// Terminate this process unconditionally.
    Kill(u32),
}

pub open spec fn terminate_all(pids: Seq<u32>) -> Seq<KillStep> {
    pids.map_values(|p: u32| KillStep::Terminate(p))
}

pub open spec fn kill_all(pids: Seq<u32>) -> Seq<KillStep> {
    pids.map_values(|p: u32| KillStep::Kill(p))
}

/// Grace then force: nothing when no process listens; otherwise a clean
/// termination request to each pid, one grace period, then a forceful
/// termination of each pid.
pub open spec fn kill_plan(pids: Seq<u32>) -> Seq<KillStep> {
    if pids.len() == 0 {
        Seq::empty()
    } else {
        terminate_all(pids).push(KillStep::Wait) + kill_all(pids)
    }
}

/// The steps that stop the processes listening on one port.
pub fn stop_on_port(pids: &Vec<u32>) -> (r: Vec<KillStep>)
    ensures
        r@ == kill_plan(pids@),
{
    let mut r: Vec<KillStep> = Vec::new();
    if pids.len() == 0 {
        assert(r@ =~= kill_plan(pids@));
        return r;
    }
    let mut i: usize = 0;
    while i < pids.len()
        invariant
            0 <= i <= pids@.len(),
            r@ =~= terminate_all(pids@.take(i as int)),
        decreases pids@.len() - i,
    {
        r.push(KillStep::Terminate(pids[i]));
        assert(terminate_all(pids@.take(i + 1)) =~= terminate_all(pids@.take(i as int)).push(
            KillStep::Terminate(pids@[i as int]),
        ));
        i = i + 1;
    }
    assert(pids@.take(i as int) =~= pids@);
    r.push(KillStep::Wait);
    let ghost head = r@;
    let mut j: usize = 0;
    while j < pids.len()
        invariant
            0 <= j <= pids@.len(),
            head == terminate_all(pids@).push(KillStep::Wait),
            r@ =~= head + kill_all(pids@.take(j as int)),
        decreases pids@.len() - j,
    {
        r.push(KillStep::Kill(pids[j]));
        assert(kill_all(pids@.take(j + 1)) =~= kill_all(pids@.take(j as int)).push(
            KillStep::Kill(pids@[j as int]),
        ));
        j = j + 1;
    }
    assert(pids@.take(j as int) =~= pids@);
    r
}

/// The steps that stop a service, given the pids found on each of its ports:
/// every listener once, all clean requests before the single grace period,
/// then all forceful ones.
pub fn stop_service(listeners: &Vec<Vec<u32>>) -> (r: Vec<KillStep>)
    ensures
        r@ == kill_plan(pid_union(listeners.deep_view())),
        r@.len() == 0 <==> !any_listener(listeners.deep_view()),
{
    let pids = collect_pids(listeners);
    let r = stop_on_port(&pids);
    proof {
        let l = listeners.deep_view();
        if pids@.len() > 0 {
            let p = pids@[0];
            assert(pids@.contains(p));
            let k = choose|k: int| 0 <= k < l.len() && l[k].contains(p);
            assert(l[k].len() > 0);
            assert(r@.len() > 0) by {
                assert(terminate_all(pids@).push(KillStep::Wait).len() > 0);
            }
        }
        if any_listener(l) {
            let k = choose|k: int| 0 <= k < l.len() && l[k].len() > 0;
            let p = l[k][0];
            assert(l[k].contains(p));
            assert(listens(l, p));
            assert(pids@.contains(p));
        }
    }
    r
}

/// What launching a service needs: the script to run and the file that
/// receives its output.
#[derive(Clone, Debug, PartialEq, Eq)]
pub struct LaunchSpec {
    pub script_name: String,
    pub log_path: String,
}

pub uninterp spec fn lower_of(s: Seq<char>) -> Seq<char>;

/// `s` with each space turned into a dash.
pub open spec fn dashed(s: Seq<char>) -> Seq<char> {
    s.map_values(|c: char| if c == ' ' { '-' } else { c })
}

/// Relies on str::replace: every occurrence of the one-character pattern
/// " " is replaced by "-", and nothing else changes.
#[verifier::external_body]
fn replace_spaces(s: &str) -> (r: String)
    ensures
        r@ == dashed(s@),
{
    s.replace(" ", "-")
}

/// Relies on str::to_lowercase: the result depends on the characters alone.
#[verifier::external_body]
fn lowercase(s: &str) -> (r: String)
    ensures
        r@ == lower_of(s@),
{
    s.to_lowercase()
}

pub open spec fn log_path_of(log_name: Seq<char>) -> Seq<char> {
    "/tmp/msuite-"@ + log_name + ".log"@
}

/// The file that receives a service's output, from its normalised name.
pub fn log_path_for(log_name: &str) -> (r: String)
    ensures
        r@ == log_path_of(log_name@),
{
    let mut r = "/tmp/msuite-".to_owned();
    r.append(log_name);
    r.append(".log");
    r
}

/// How to launch `service`: its script, with output sent to a log file named
/// from its id, spaces dashed and lower-cased.
pub fn start_service(service: &ServiceDef) -> (r: LaunchSpec)
    ensures
        r.script_name@ == service.script_name@,
        r.log_path@ == log_path_of(lower_of(dashed(service.id@))),
{
    let dashed_id = replace_spaces(service.id.as_str());
    let log_name = lowercase(dashed_id.as_str());
    LaunchSpec { script_name: service.script_name.clone(), log_path: log_path_for(log_name.as_str()) }
}

} // verus!
