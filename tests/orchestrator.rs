use portal_supervisor::{
    parse_action, service_action, suite_action, Action, Event, KillStep, Phase, Reply, Request,
    Session, SupervisorError,
};

/// Runs a session against scripted probes; returns the operations asked for
/// and the outcome.
fn drive(
    mut session: Session,
    mut request: Request,
    listeners: &dyn Fn(usize) -> Vec<Vec<u32>>,
    fail_launch_of: Option<usize>,
) -> (Vec<String>, Result<Reply, SupervisorError>) {
    let mut log = Vec::new();
    loop {
        let event = match request {
            Request::Probe(i) => {
                log.push(format!("probe {i}"));
                Event::Listeners(listeners(i))
            }
            Request::Signal(plan) => {
                for step in plan {
                    log.push(match step {
                        KillStep::Terminate(p) => format!("term {p}"),
                        KillStep::Wait => "wait".to_string(),
                        KillStep::Kill(p) => format!("kill {p}"),
                    });
                }
                Event::Done
            }
            Request::Launch(i) => {
                log.push(format!("launch {i}"));
                if fail_launch_of == Some(i) {
                    Event::Failed("boom".to_string())
                } else {
                    Event::Done
                }
            }
            Request::Finish(outcome) => return (log, outcome),
        };
        assert!(session.takes(&event));
        request = session.step(event);
    }
}

#[test]
fn unknown_id_is_rejected() {
    let r = service_action("doesNotExist", "start");
    assert_eq!(r.unwrap_err(), SupervisorError::NotFound("doesNotExist".to_string()));
}

#[test]
fn unknown_id_wins_over_unknown_action() {
    let r = service_action("doesNotExist", "pause");
    assert_eq!(r.unwrap_err(), SupervisorError::NotFound("doesNotExist".to_string()));
}

#[test]
fn unknown_action_is_rejected() {
    let r = service_action("practiceWeb", "pause");
    assert_eq!(r.unwrap_err(), SupervisorError::UnknownAction("pause".to_string()));
    let r = suite_action("pause");
    assert_eq!(r.unwrap_err(), SupervisorError::UnknownAction("pause".to_string()));
}

#[test]
fn actions_are_parsed() {
    assert_eq!(parse_action("start"), Some(Action::Start));
    assert_eq!(parse_action("stop"), Some(Action::Stop));
    assert_eq!(parse_action("restart"), Some(Action::Restart));
    assert_eq!(parse_action("Start"), None);
    assert_eq!(parse_action(""), None);
}

#[test]
fn stop_of_idle_service_sends_nothing() {
    let (s, q) = service_action("practiceApi", "stop").unwrap();
    let (log, out) = drive(s, q, &|_| vec![vec![]], None);
    assert_eq!(log, vec!["probe 1"]);
    assert_eq!(out, Ok(Reply::Completed(1, Action::Stop)));
}

#[test]
fn stop_forces_after_grace() {
    let (s, q) = service_action("practiceWeb", "stop").unwrap();
    let (log, out) = drive(s, q, &|_| vec![vec![200]], None);
    assert_eq!(log, vec!["probe 0", "term 200", "wait", "kill 200"]);
    assert_eq!(out, Ok(Reply::Completed(0, Action::Stop)));
}

#[test]
fn start_of_running_service_does_not_launch() {
    let (s, q) = service_action("customsUi", "start").unwrap();
    let (log, out) = drive(s, q, &|_| vec![vec![55]], None);
    assert_eq!(log, vec!["probe 2"]);
    assert_eq!(out, Ok(Reply::AlreadyRunning(2)));
}

#[test]
fn start_of_stopped_service_launches() {
    let (s, q) = service_action("customsUi", "start").unwrap();
    let (log, out) = drive(s, q, &|_| vec![vec![]], None);
    assert_eq!(log, vec!["probe 2", "launch 2"]);
    assert_eq!(out, Ok(Reply::Completed(2, Action::Start)));
}

#[test]
fn restart_launches_once_when_running() {
    let (s, q) = service_action("customsBackend", "restart").unwrap();
    let (log, out) = drive(s, q, &|_| vec![vec![9]], None);
    assert_eq!(log, vec!["probe 3", "term 9", "wait", "kill 9", "launch 3"]);
    assert_eq!(out, Ok(Reply::Completed(3, Action::Restart)));
}

#[test]
fn restart_launches_once_when_stopped() {
    let (s, q) = service_action("customsBackend", "restart").unwrap();
    let (log, out) = drive(s, q, &|_| vec![vec![]], None);
    assert_eq!(log, vec!["probe 3", "launch 3"]);
    assert_eq!(out, Ok(Reply::Completed(3, Action::Restart)));
}

#[test]
fn suite_restart_stops_all_before_starting() {
    let (s, q) = suite_action("restart").unwrap();
    let (log, out) = drive(s, q, &|i| if i % 2 == 0 { vec![vec![i as u32 + 10]] } else { vec![vec![]] }, None);
    assert_eq!(
        log,
        vec![
            "probe 0", "term 10", "wait", "kill 10", "probe 1", "probe 2", "term 12", "wait",
            "kill 12", "probe 3", "launch 0", "launch 1", "launch 2", "launch 3",
        ]
    );
    assert_eq!(out, Ok(Reply::SuiteCompleted(Action::Restart)));
}

#[test]
fn suite_start_skips_running_services() {
    let (s, q) = suite_action("start").unwrap();
    let (log, out) = drive(s, q, &|i| if i == 1 { vec![vec![4]] } else { vec![vec![]] }, None);
    assert_eq!(
        log,
        vec!["probe 0", "launch 0", "probe 1", "probe 2", "launch 2", "probe 3", "launch 3"]
    );
    assert_eq!(out, Ok(Reply::SuiteCompleted(Action::Start)));
}

#[test]
fn suite_stop_visits_every_service() {
    let (s, q) = suite_action("stop").unwrap();
    let (log, out) = drive(s, q, &|_| vec![vec![]], None);
    assert_eq!(log, vec!["probe 0", "probe 1", "probe 2", "probe 3"]);
    assert_eq!(out, Ok(Reply::SuiteCompleted(Action::Stop)));
}

#[test]
fn launch_failure_aborts_suite() {
    let (s, q) = suite_action("restart").unwrap();
    let (log, out) = drive(s, q, &|_| vec![vec![]], Some(1));
    assert_eq!(log, vec!["probe 0", "probe 1", "probe 2", "probe 3", "launch 0", "launch 1"]);
    assert_eq!(
        out,
        Err(SupervisorError::Failed { service: 1, phase: Phase::Start, message: "boom".to_string() })
    );
}

#[test]
fn stop_failure_reports_phase() {
    let (mut s, _) = service_action("practiceApi", "stop").unwrap();
    let ev = Event::Failed("no shell".to_string());
    assert!(s.takes(&ev));
    match s.step(ev) {
        Request::Finish(out) => assert_eq!(
            out,
            Err(SupervisorError::Failed { service: 1, phase: Phase::Stop, message: "no shell".to_string() })
        ),
        other => panic!("unexpected {other:?}"),
    }
    assert!(!s.takes(&Event::Done));
}

#[test]
fn session_rejects_unexpected_event() {
    let (s, _) = service_action("practiceWeb", "start").unwrap();
    assert!(!s.takes(&Event::Done));
    assert!(s.takes(&Event::Listeners(vec![vec![]])));
}
