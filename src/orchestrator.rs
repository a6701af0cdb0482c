use vstd::prelude::*;

use crate::control::{kill_plan, stop_service, KillStep};
use crate::error::{Phase, SupervisorError};
use crate::liveness::{any_listener, pid_union, service_running};
use crate::registry::{has_id, is_first_with_id, registry, service_index};

verus! {

/// The verbs that act on services.
#[derive(Clone, Copy, Debug, PartialEq, Eq, Structural)]
pub enum Action {
    Start,
    Stop,
    Restart,
}

/// The action a request string names, if any.
pub open spec fn action_named(s: Seq<char>) -> Option<Action> {
    if s == "start"@ {
        Some(Action::Start)
    } else if s == "stop"@ {
        Some(Action::Stop)
    } else if s == "restart"@ {
        Some(Action::Restart)
    } else {
        None
    }
}

pub fn parse_action(s: &str) -> (r: Option<Action>)
    ensures
        r == action_named(s@),
{
    let given = s.to_owned();
    if given == "start".to_owned() {
        Some(Action::Start)
    } else if given == "stop".to_owned() {
        Some(Action::Stop)
    } else if given == "restart".to_owned() {
        Some(Action::Restart)
    } else {
        None
    }
}

/// Where a session stands; each variant names the registry entry acted on.
#[derive(Clone, Copy, Debug, PartialEq, Eq, Structural)]
pub enum Stage {
    /// Waiting for the listeners of the entry, to guard against a second start.
    Check(usize),
    /// Waiting for the listeners of the entry, to stop them.
    StopProbe(usize),
    /// Waiting for the stop signals to the entry's listeners to be delivered.
    StopSignal(usize),
    /// Waiting for the entry's launch to be issued.
    Launch(usize),
    /// Finished; no more events are taken.
    Done,
}

/// How an action ended well.
#[derive(Clone, Copy, Debug, PartialEq, Eq, Structural)]
pub enum Reply {
    /// A start found the service already listening and did nothing.
    AlreadyRunning(usize),
    /// The action completed on one service.
    Completed(usize, Action),
    /// The action completed on the whole registry.
    SuiteCompleted(Action),
}

/// What the caller observed after carrying out the last request.
#[derive(Debug)]
pub enum Event {
    /// Listening pids for each port of the entry named by a `Probe`, in port order.
    Listeners(Vec<Vec<u32>>),
    /// The signals or the launch were carried out.
    Done,
    /// The outside operation failed, with its message.
    Failed(String),
}

/// What the caller must do next.
#[derive(Debug)]
pub enum Request {
    /// Find the pids listening on each port of this registry entry.
    Probe(usize),
    /// Carry out these signal steps, in order.
    Signal(Vec<KillStep>),
    /// Launch this registry entry, without waiting for it to be ready.
    Launch(usize),
    /// The action is over, with this outcome.
    Finish(Result<Reply, SupervisorError>),
}

/// A request as the state machine's model states it: a signal request is
/// given by the listeners it stops.
pub enum Order {
    Probe(usize),
    Signal(Seq<Seq<u32>>),
    Launch(usize),
    Finish(Result<Reply, SupervisorError>),
}

/// `r` carries out `o`: a signal request holds the grace-then-force plan for
/// the listeners' merged pids.
pub open spec fn fulfils(r: Request, o: Order) -> bool {
    match (r, o) {
        (Request::Probe(a), Order::Probe(b)) => a == b,
        (Request::Signal(plan), Order::Signal(l)) => plan@ == kill_plan(pid_union(l)),
        (Request::Launch(a), Order::Launch(b)) => a == b,
        (Request::Finish(x), Order::Finish(y)) => x == y,
        _ => false,
    }
}

/// One action on one service or on the whole registry, in progress. The
/// entries acted on are `first..end` of the registry, in order.
#[derive(Clone, Copy, Debug, PartialEq, Eq, Structural)]
pub struct Session {
    pub action: Action,
    pub suite: bool,
    pub first: usize,
    pub end: usize,
    pub stage: Stage,
}

pub open spec fn with_stage(s: Session, stage: Stage) -> Session {
    Session { action: s.action, suite: s.suite, first: s.first, end: s.end, stage }
}

pub open spec fn stage_entry(stage: Stage) -> Option<usize> {
    match stage {
        Stage::Check(i) => Some(i),
        Stage::StopProbe(i) => Some(i),
        Stage::StopSignal(i) => Some(i),
        Stage::Launch(i) => Some(i),
        Stage::Done => None,
    }
}

pub open spec fn stopping(stage: Stage) -> bool {
    stage is StopProbe || stage is StopSignal
}

impl Session {
    pub open spec fn wf(self) -> bool {
        &&& self.first < self.end <= registry().len()
        &&& self.suite ==> self.first == 0 && self.end == registry().len()
        &&& !self.suite ==> self.end == self.first + 1
        &&& stage_entry(self.stage) matches Some(i) ==> self.first <= i < self.end
        &&& self.stage is Check ==> self.action == Action::Start
        &&& stopping(self.stage) ==> self.action != Action::Start
    }

    /// The event that the session waits for is of this kind.
    pub open spec fn accepts(self, e: Event) -> bool {
        match e {
            Event::Failed(_) => !(self.stage is Done),
            Event::Listeners(_) => self.stage is Check || self.stage is StopProbe,
            Event::Done => self.stage is StopSignal || self.stage is Launch,
        }
    }
}

/// The success reply of a session.
pub open spec fn completed(s: Session) -> Reply {
    if s.suite {
        Reply::SuiteCompleted(s.action)
    } else {
        Reply::Completed(s.first, s.action)
    }
}

/// The first request of a session, and its stage.
pub open spec fn opening(s: Session) -> (Stage, Order) {
    if s.action == Action::Start {
        (Stage::Check(s.first), Order::Probe(s.first))
    } else {
        (Stage::StopProbe(s.first), Order::Probe(s.first))
    }
}

pub open spec fn finish_ok(s: Session) -> (Session, Order) {
    (with_stage(s, Stage::Done), Order::Finish(Ok(completed(s))))
}

/// A start found entry `i` running: one service replies at once, the suite
/// goes on with the next entry.
pub open spec fn skip_start(s: Session, i: usize) -> (Session, Order) {
    if !s.suite {
        (with_stage(s, Stage::Done), Order::Finish(Ok(Reply::AlreadyRunning(i))))
    } else if i + 1 < s.end {
        (with_stage(s, Stage::Check((i + 1) as usize)), Order::Probe((i + 1) as usize))
    } else {
        finish_ok(s)
    }
}

/// Entry `i` is stopped: stop the next one; after the last, a restart
/// launches from the first entry and a stop finishes.
pub open spec fn after_stop(s: Session, i: usize) -> (Session, Order) {
    if i + 1 < s.end {
        (with_stage(s, Stage::StopProbe((i + 1) as usize)), Order::Probe((i + 1) as usize))
    } else if s.action == Action::Restart {
        (with_stage(s, Stage::Launch(s.first)), Order::Launch(s.first))
    } else {
        finish_ok(s)
    }
}

/// Entry `i` is launched: a start checks the next entry, a restart launches
/// it; after the last the session finishes.
pub open spec fn after_launch(s: Session, i: usize) -> (Session, Order) {
    if i + 1 < s.end {
        if s.action == Action::Start {
            (with_stage(s, Stage::Check((i + 1) as usize)), Order::Probe((i + 1) as usize))
        } else {
            (with_stage(s, Stage::Launch((i + 1) as usize)), Order::Launch((i + 1) as usize))
        }
    } else {
        finish_ok(s)
    }
}

pub open spec fn failure(s: Session, message: String) -> (Session, Order) {
    let phase = if stopping(s.stage) { Phase::Stop } else { Phase::Start };
    let service = match stage_entry(s.stage) {
        Some(i) => i,
        None => 0,
    };
    (
        with_stage(s, Stage::Done),
        Order::Finish(Err(SupervisorError::Failed { service, phase, message })),
    )
}

/// The transition: the next state and request of session `s` on event `e`.
pub open spec fn next(s: Session, e: Event) -> (Session, Order) {
    match e {
        Event::Failed(message) => failure(s, message),
        Event::Listeners(l) => match s.stage {
            Stage::Check(i) => if any_listener(l.deep_view()) {
                skip_start(s, i)
            } else {
                (with_stage(s, Stage::Launch(i)), Order::Launch(i))
            },
            Stage::StopProbe(i) => if any_listener(l.deep_view()) {
                (with_stage(s, Stage::StopSignal(i)), Order::Signal(l.deep_view()))
            } else {
                after_stop(s, i)
            },
            // not taken: `accepts` rules these events out
            _ => (s, Order::Probe(0)),
        },
        Event::Done => match s.stage {
            Stage::StopSignal(i) => after_stop(s, i),
            Stage::Launch(i) => after_launch(s, i),
            _ => (s, Order::Probe(0)),
        },
    }
}

/// A new session: its stage is the opening one.
pub open spec fn fresh(action: Action, suite: bool, first: usize, end: usize) -> Session {
    let s = Session { action, suite, first, end, stage: Stage::Done };
    with_stage(s, opening(s).0)
}

impl Session {
    fn begin(action: Action, suite: bool, first: usize, end: usize) -> (r: (Session, Request))
        ensures
            r.0 == fresh(action, suite, first, end),
            fulfils(r.1, opening(r.0).1),
    {
        let stage = match action {
            Action::Start => Stage::Check(first),
            _ => Stage::StopProbe(first),
        };
        (Session { action, suite, first, end, stage }, Request::Probe(first))
    }

    fn finish(&mut self) -> (r: Request)
        ensures
            (*final(self), Order::Finish(Ok(completed(*old(self))))) == finish_ok(*old(self)),
            fulfils(r, finish_ok(*old(self)).1),
    {
        let reply = if self.suite {
            Reply::SuiteCompleted(self.action)
        } else {
            Reply::Completed(self.first, self.action)
        };
        self.stage = Stage::Done;
        Request::Finish(Ok(reply))
    }

    fn skip(&mut self, i: usize) -> (r: Request)
        requires
            old(self).wf(),
            old(self).first <= i < old(self).end,
        ensures
            *final(self) == skip_start(*old(self), i).0,
            fulfils(r, skip_start(*old(self), i).1),
    {
        if !self.suite {
            self.stage = Stage::Done;
            Request::Finish(Ok(Reply::AlreadyRunning(i)))
        } else if i + 1 < self.end {
            self.stage = Stage::Check(i + 1);
            Request::Probe(i + 1)
        } else {
            self.finish()
        }
    }

    fn stopped(&mut self, i: usize) -> (r: Request)
        requires
            old(self).wf(),
            old(self).first <= i < old(self).end,
        ensures
            *final(self) == after_stop(*old(self), i).0,
            fulfils(r, after_stop(*old(self), i).1),
    {
        if i + 1 < self.end {
            self.stage = Stage::StopProbe(i + 1);
            Request::Probe(i + 1)
        } else if self.action == Action::Restart {
            self.stage = Stage::Launch(self.first);
            Request::Launch(self.first)
        } else {
            self.finish()
        }
    }

    fn launched(&mut self, i: usize) -> (r: Request)
        requires
            old(self).wf(),
            old(self).first <= i < old(self).end,
        ensures
            *final(self) == after_launch(*old(self), i).0,
            fulfils(r, after_launch(*old(self), i).1),
    {
        if i + 1 < self.end {
            if self.action == Action::Start {
                self.stage = Stage::Check(i + 1);
                Request::Probe(i + 1)
            } else {
                self.stage = Stage::Launch(i + 1);
                Request::Launch(i + 1)
            }
        } else {
            self.finish()
        }
    }

    /// Whether `event` is of the kind the session waits for.
    pub fn takes(&self, event: &Event) -> (r: bool)
        ensures
            r == self.accepts(*event),
    {
        match event {
            Event::Failed(_) => !matches!(self.stage, Stage::Done),
            Event::Listeners(_) => matches!(self.stage, Stage::Check(_) | Stage::StopProbe(_)),
            Event::Done => matches!(self.stage, Stage::StopSignal(_) | Stage::Launch(_)),
        }
    }

    /// Advances the session on what the caller observed, and says what to do
    /// next.
    pub fn step(&mut self, event: Event) -> (r: Request)
        requires
            old(self).wf(),
            old(self).accepts(event),
        ensures
            *final(self) == next(*old(self), event).0,
            fulfils(r, next(*old(self), event).1),
            final(self).wf(),
    {
        match event {
            Event::Failed(message) => {
                let phase = match self.stage {
                    Stage::StopProbe(_) | Stage::StopSignal(_) => Phase::Stop,
                    _ => Phase::Start,
                };
                let service = match self.stage {
                    Stage::Check(i) | Stage::StopProbe(i) | Stage::StopSignal(i) | Stage::Launch(
                        i,
                    ) => i,
                    Stage::Done => 0,
                };
                self.stage = Stage::Done;
                Request::Finish(Err(SupervisorError::Failed { service, phase, message }))
            },
            Event::Listeners(l) => match self.stage {
                Stage::Check(i) => {
                    if service_running(&l) {
                        self.skip(i)
                    } else {
                        self.stage = Stage::Launch(i);
                        Request::Launch(i)
                    }
                },
                Stage::StopProbe(i) => {
                    let plan = stop_service(&l);
                    if plan.len() == 0 {
                        self.stopped(i)
                    } else {
                        self.stage = Stage::StopSignal(i);
                        Request::Signal(plan)
                    }
                },
                // not taken: `accepts` rules these events out
                _ => Request::Probe(0),
            },
            Event::Done => match self.stage {
                Stage::StopSignal(i) => self.stopped(i),
                Stage::Launch(i) => self.launched(i),
                _ => Request::Probe(0),
            },
        }
    }
}

/// Begins `action` on the service with id `service_id`. An unknown id is
/// rejected first, then an unknown action; neither touches any process.
pub fn service_action(service_id: &str, action: &str) -> (r: Result<(Session, Request), SupervisorError>)
    ensures
        !has_id(service_id@) ==> (r matches Err(e) && e matches SupervisorError::NotFound(got)
            && got@ == service_id@),
        has_id(service_id@) && action_named(action@) is None ==> (r matches Err(e)
            && e matches SupervisorError::UnknownAction(got) && got@ == action@),
        r is Ok <==> has_id(service_id@) && action_named(action@) is Some,
        r matches Ok((s, q)) ==> {
            &&& is_first_with_id(service_id@, s.first as int)
            &&& s == fresh(action_named(action@)->0, false, s.first, (s.first + 1) as usize)
            &&& s.wf()
            &&& fulfils(q, opening(s).1)
        },
{
    let index = service_index(service_id);
    match index {
        None => Err(SupervisorError::NotFound(service_id.to_owned())),
        Some(k) => match parse_action(action) {
            None => Err(SupervisorError::UnknownAction(action.to_owned())),
            Some(a) => Ok(Session::begin(a, false, k, k + 1)),
        },
    }
}

/// Begins `action` on every registered service, in registry order.
pub fn suite_action(action: &str) -> (r: Result<(Session, Request), SupervisorError>)
    ensures
        r is Ok <==> action_named(action@) is Some,
        r matches Err(e) ==> e matches SupervisorError::UnknownAction(got) && got@ == action@,
        r matches Ok((s, q)) ==> {
            &&& s == fresh(action_named(action@)->0, true, 0, registry().len() as usize)
            &&& s.wf()
            &&& fulfils(q, opening(s).1)
        },
{
    match parse_action(action) {
        None => Err(SupervisorError::UnknownAction(action.to_owned())),
        Some(a) => Ok(Session::begin(a, true, 0, 4)),
    }
}

} // verus!
