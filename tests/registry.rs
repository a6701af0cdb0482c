use portal_supervisor::{find_service, list_services, service_index, services, SupervisorError};

#[test]
fn registry_order_is_fixed() {
    let ids: Vec<String> = services().into_iter().map(|s| s.id).collect();
    assert_eq!(ids, vec!["practiceWeb", "practiceApi", "customsUi", "customsBackend"]);
}

#[test]
fn registry_ports_and_scripts() {
    let all = services();
    assert_eq!(all[0].ports, vec![3000]);
    assert_eq!(all[1].ports, vec![3001]);
    assert_eq!(all[2].ports, vec![5173]);
    assert_eq!(all[3].ports, vec![3100]);
    assert_eq!(all[3].script_name, "customs-backend");
    assert_eq!(all[1].name, "Practice API");
}

#[test]
fn find_known_service() {
    let s = find_service("customsUi").unwrap();
    assert_eq!(s.id, "customsUi");
    assert_eq!(s.description, "Customs Manager frontend");
    assert_eq!(s.script_name, "customs");
    assert_eq!(service_index("customsUi"), Some(2));
}

#[test]
fn find_unknown_service_is_not_found() {
    assert_eq!(
        find_service("doesNotExist").unwrap_err(),
        SupervisorError::NotFound("doesNotExist".to_string())
    );
    assert_eq!(service_index("practiceweb"), None);
    assert_eq!(service_index(""), None);
}

#[test]
fn list_services_matches_registry() {
    let infos = list_services();
    assert_eq!(infos.len(), 4);
    assert_eq!(infos[0].id, "practiceWeb");
    assert_eq!(infos[0].name, "Practice Web");
    assert_eq!(infos[0].description, "Practice Manager web frontend");
    assert_eq!(infos[2].ports, vec![5173]);
}
