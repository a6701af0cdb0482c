use vstd::prelude::*;

use crate::liveness::any_listener;
use crate::orchestrator::{
    fresh, next, opening, stage_entry, stopping, Action, Event, Order, Reply, Session, Stage,
};
use crate::registry::registry;

verus! {

/// Stopping one service on whose ports nothing listens succeeds at once and
/// sends no signal.
pub proof fn idle_stop_sends_nothing(k: usize, l: Vec<Vec<u32>>)
    requires
        k < registry().len(),
        !any_listener(l.deep_view()),
    ensures
        opening(fresh(Action::Stop, false, k, (k + 1) as usize)).1 == Order::Probe(k),
        next(fresh(Action::Stop, false, k, (k + 1) as usize), Event::Listeners(l)).1
            == Order::Finish(Ok(Reply::Completed(k, Action::Stop))),
{
}

/// Within any stop, a port probe that finds no listener never leads to a
/// signal request, nor to a failure.
pub proof fn idle_probe_sends_no_signal(s: Session, l: Vec<Vec<u32>>)
    requires
        s.wf(),
        s.stage is StopProbe,
        !any_listener(l.deep_view()),
    ensures
        !(next(s, Event::Listeners(l)).1 is Signal),
        next(s, Event::Listeners(l)).1 matches Order::Finish(x) ==> x is Ok,
{
}

/// A start that finds the service listening launches nothing; on one service
/// it replies that the service already runs.
pub proof fn running_service_not_launched(s: Session, l: Vec<Vec<u32>>)
    requires
        s.wf(),
        s.stage is Check,
        any_listener(l.deep_view()),
    ensures
        !(next(s, Event::Listeners(l)).1 is Launch),
        !s.suite ==> next(s, Event::Listeners(l)).1 == Order::Finish(
            Ok(Reply::AlreadyRunning(s.stage->Check_0)),
        ),
{
}

/// A restart of one service probes its ports, signals their listeners if
/// there are any, and then launches it exactly once, whatever it found.
pub proof fn restart_relaunches_once(k: usize, l: Vec<Vec<u32>>)
    requires
        k < registry().len(),
    ensures
        ({
            let s0 = fresh(Action::Restart, false, k, (k + 1) as usize);
            let (s1, o1) = next(s0, Event::Listeners(l));
            let done = Reply::Completed(k, Action::Restart);
            &&& opening(s0).1 == Order::Probe(k)
            &&& any_listener(l.deep_view()) ==> {
                &&& o1 == Order::Signal(l.deep_view())
                &&& next(s1, Event::Done).1 == Order::Launch(k)
                &&& next(next(s1, Event::Done).0, Event::Done).1 == Order::Finish(Ok(done))
            }
            &&& !any_listener(l.deep_view()) ==> {
                &&& o1 == Order::Launch(k)
                &&& next(s1, Event::Done).1 == Order::Finish(Ok(done))
            }
        }),
{
}

/// A restart of the whole registry opens by stopping the first entry.
pub proof fn suite_restart_opens_with_stop()
    ensures
        opening(fresh(Action::Restart, true, 0, registry().len() as usize)) == (
            Stage::StopProbe(0),
            Order::Probe(0),
        ),
{
}

/// In a restart of the whole registry, stops advance one entry at a time in
/// registry order, the first launch comes only after the last entry's stop,
/// and once launching has begun no stop follows.
pub proof fn suite_restart_stops_before_starts(s: Session, e: Event)
    requires
        s.wf(),
        s.suite,
        s.action == Action::Restart,
        s.accepts(e),
    ensures
        ({
            let (t, o) = next(s, e);
            &&& stopping(s.stage) && stopping(t.stage) ==> {
                ||| stage_entry(t.stage) == stage_entry(s.stage)
                ||| stage_entry(t.stage)->0 == stage_entry(s.stage)->0 + 1
            }
            &&& stopping(s.stage) && o is Launch ==> {
                &&& stage_entry(s.stage)->0 == s.end - 1
                &&& o == Order::Launch(s.first)
            }
            &&& s.stage is Launch ==> (t.stage is Launch || t.stage is Done)
            &&& o is Launch ==> (s.stage is Launch || stage_entry(s.stage)->0 == s.end - 1)
        }),
{
}

} // verus!
