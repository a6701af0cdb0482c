//! A local service supervisor: a fixed registry of development services, the
//! rules that derive their liveness from port listeners, and the sequencing of
//! start, stop and restart as a state machine driven by observed events.

pub mod control;
pub mod error;
pub mod laws;
pub mod liveness;
pub mod orchestrator;
pub mod probe;
pub mod registry;

pub use control::{
    log_path_for, start_service, stop_on_port, stop_service, KillStep, LaunchSpec,
};
pub use error::{Phase, SupervisorError};
pub use laws::{
    idle_probe_sends_no_signal, idle_stop_sends_nothing, restart_relaunches_once,
    running_service_not_launched, suite_restart_opens_with_stop, suite_restart_stops_before_starts,
};
pub use liveness::{
    collect_pids, port_status, service_running, service_status, watch_ports, PortInfo,
    ServiceStatus,
};
pub use registry::{
    find_service, list_services, registry_well_formed, service_index, services, ServiceDef,
    ServiceInfo,
};
pub use orchestrator::{
    parse_action, service_action, suite_action, Action, Event, Reply, Request, Session, Stage,
};
pub use probe::{parse_pids, pids_from_lines};
