use neo4r_server::rbac::{web_role_allows_action, WebAction, WebRole};

#[test]
fn rbac_policy_maps_actions_to_minimum_roles() {
    assert!(web_role_allows_action(
        WebRole::Reader,
        WebAction::GraphRead
    ));
    assert!(web_role_allows_action(
        WebRole::Reader,
        WebAction::MetricsRead
    ));
    assert!(!web_role_allows_action(
        WebRole::Reader,
        WebAction::GraphWrite
    ));
    assert!(web_role_allows_action(
        WebRole::Writer,
        WebAction::GraphWrite
    ));
    assert!(!web_role_allows_action(
        WebRole::Writer,
        WebAction::BackupAdmin
    ));
    assert!(!web_role_allows_action(
        WebRole::Writer,
        WebAction::RaftAdmin
    ));
    assert!(web_role_allows_action(
        WebRole::Admin,
        WebAction::TokenAdmin
    ));
    assert!(web_role_allows_action(
        WebRole::Admin,
        WebAction::RestoreAdmin
    ));
    assert!(web_role_allows_action(
        WebRole::Admin,
        WebAction::RepairAdmin
    ));
}
