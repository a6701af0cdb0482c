use portal_supervisor::{
    collect_pids, find_service, parse_pids, pids_from_lines, port_status, service_running,
    service_status, watch_ports,
};

#[test]
fn status_aggregates_ports() {
    let service = find_service("practiceWeb").unwrap();
    let listeners = vec![vec![100u32], vec![]];
    let st = service_status(&service, &listeners);
    assert!(st.running);
    assert_eq!(st.pids, vec![100]);
    assert_eq!(st.id, "practiceWeb");
    assert_eq!(st.ports, vec![3000]);
}

#[test]
fn status_without_listeners_is_stopped() {
    let service = find_service("customsBackend").unwrap();
    let st = service_status(&service, &vec![vec![], vec![]]);
    assert!(!st.running);
    assert!(st.pids.is_empty());
}

#[test]
fn pids_are_sorted_and_deduplicated() {
    assert_eq!(collect_pids(&vec![vec![5, 3], vec![3, 1], vec![9, 5]]), vec![1, 3, 5, 9]);
    assert_eq!(collect_pids(&vec![]), Vec::<u32>::new());
    assert_eq!(collect_pids(&vec![vec![7, 7, 7]]), vec![7]);
    assert_eq!(collect_pids(&vec![vec![u32::MAX, 0]]), vec![0, u32::MAX]);
}

#[test]
fn running_iff_some_port_listens() {
    assert!(!service_running(&vec![]));
    assert!(!service_running(&vec![vec![], vec![]]));
    assert!(service_running(&vec![vec![], vec![42]]));
    assert!(service_running(&vec![vec![1], vec![]]));
}

#[test]
fn port_status_uses_only_its_probe() {
    let a = port_status(4000, vec![12, 13]);
    assert_eq!(a.port, 4000);
    assert!(a.running);
    assert_eq!(a.pids, vec![12, 13]);
    let b = port_status(4174, vec![]);
    assert_eq!(b.port, 4174);
    assert!(!b.running);
    assert!(b.pids.is_empty());
}

#[test]
fn watched_ports_ascending() {
    assert_eq!(watch_ports(), vec![3000, 3001, 3100, 4000, 4174, 5173]);
}

#[test]
fn listing_output_is_parsed() {
    assert_eq!(parse_pids("123\n456\n"), vec![123, 456]);
    assert_eq!(parse_pids("  77  \nnot a pid\n\n8"), vec![77, 8]);
    assert_eq!(parse_pids(""), Vec::<u32>::new());
    assert_eq!(parse_pids("99999999999\n-1\n5"), vec![5]);
}

#[test]
fn lines_are_parsed_in_order() {
    let lines = vec![" 3".to_string(), "x".to_string(), "1\t".to_string()];
    assert_eq!(pids_from_lines(&lines), vec![3, 1]);
}
