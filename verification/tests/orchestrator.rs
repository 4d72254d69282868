use systemd_manager_tui::orchestrator::{
    Actions, AppCommand, ConnectionType, Mode, Orchestrator, ServiceAction,
};
use systemd_manager_tui::resolver::UnitCommand;
use systemd_manager_tui::service::{Service, ServiceState};

fn svc(name: &str, active: &str, file: &str) -> Service {
    Service::new(
        name.to_string(),
        String::new(),
        ServiceState::new("loaded".to_string(), active.to_string(), String::new(), file.to_string()),
    )
}

fn orch_with_list() -> Orchestrator {
    let mut o = Orchestrator::new(ConnectionType::System);
    o.table.set_services(&vec![
        svc("alpha.service", "active", "enabled"),
        svc("beta.service", "inactive", "masked"),
    ]);
    o.table.refresh("");
    o
}

#[test]
fn failed_scope_switch_reverts_and_keeps_the_list() {
    let mut o = orch_with_list();
    let before: Vec<String> = o.table.services.iter().map(|s| s.name().to_string()).collect();
    // the session bus is unavailable: the capability kept its old scope
    let reset = o.apply_scope_switch(ConnectionType::Session, false);
    assert!(!reset);
    assert_eq!(o.scope, ConnectionType::System);
    let after: Vec<String> = o.table.services.iter().map(|s| s.name().to_string()).collect();
    assert_eq!(after, before);
    assert!(!o.table.services.is_empty());
}

#[test]
fn successful_scope_switch_follows_and_resets() {
    let mut o = orch_with_list();
    let reset = o.apply_scope_switch(ConnectionType::Session, true);
    assert!(reset);
    assert_eq!(o.scope, ConnectionType::Session);
}

#[test]
fn runtime_timestamp_applies_only_to_the_selected_unit() {
    let mut o = orch_with_list();
    o.table.set_selected_index(0);
    o.apply_runtime_timestamp("beta.service", 777);
    assert_eq!(o.runtime_timestamp, None); // stale tag, discarded silently
    o.apply_runtime_timestamp("alpha.service", 777);
    assert_eq!(o.runtime_timestamp, Some(777));
    o.on_selection_changed();
    assert_eq!(o.runtime_timestamp, None); // invalidated with the selection
}

#[test]
fn go_log_switches_mode_and_requests_the_selected_log() {
    let mut o = orch_with_list();
    o.table.set_selected_index(1);
    let cmd = o.handle_action(&Actions::GoLog);
    assert_eq!(o.mode, Mode::Log);
    match cmd {
        AppCommand::FetchLog(name) => assert_eq!(name, "beta.service"),
        _ => panic!("expected a log fetch"),
    }
}

#[test]
fn unit_action_dispatch_blocks_keys_until_the_result() {
    let mut o = orch_with_list();
    o.table.set_selected_index(0);
    let cmd = o.handle_action(&Actions::ServiceAction(ServiceAction::Start));
    assert!(o.ignore_key_events);
    match cmd {
        AppCommand::RunUnit(c, name) => {
            assert!(matches!(c, UnitCommand::Start));
            assert_eq!(name, "alpha.service");
        }
        _ => panic!("expected a unit command"),
    }
    o.on_action_success(svc("alpha.service", "active", "enabled"));
    assert!(!o.ignore_key_events);
}

#[test]
fn toggle_mask_picks_unmask_for_masked_units() {
    let mut o = orch_with_list();
    o.table.set_selected_index(1); // beta.service is masked
    let cmd = o.handle_action(&Actions::ServiceAction(ServiceAction::ToggleMask));
    match cmd {
        AppCommand::RunUnit(c, name) => {
            assert!(matches!(c, UnitCommand::Unmask));
            assert_eq!(name, "beta.service");
        }
        _ => panic!("expected a unit command"),
    }
}

#[test]
fn action_success_updates_the_list_in_place() {
    let mut o = orch_with_list();
    o.on_action_success(svc("beta.service", "active", "enabled"));
    let beta = o.table.services.iter().find(|s| s.name() == "beta.service").unwrap();
    assert_eq!(beta.state().active(), "active");
    assert_eq!(o.table.services.len(), 2);
}

#[test]
fn filter_intent_reapplies_the_view() {
    let mut o = orch_with_list();
    let cmd = o.handle_action(&Actions::Filter("beta".to_string()));
    assert!(matches!(cmd, AppCommand::Idle));
    assert_eq!(o.table.filtered_services.len(), 1);
    assert_eq!(o.table.filtered_services[0].name(), "beta.service");
    assert_eq!(o.table.selected, Some(0));
}

#[test]
fn updatelog_stores_the_log_for_display() {
    let mut o = orch_with_list();
    let cmd =
        o.handle_action(&Actions::Updatelog(("alpha.service".to_string(), "line1\n".to_string())));
    assert!(matches!(cmd, AppCommand::Idle));
    assert_eq!(o.log_unit, "alpha.service");
    assert_eq!(o.log_text, "line1\n");
}

#[test]
fn refresh_log_is_ignored_outside_log_mode() {
    let mut o = orch_with_list();
    o.table.set_selected_index(0);
    assert!(matches!(o.handle_action(&Actions::RefreshLog), AppCommand::Idle));
    o.handle_action(&Actions::GoLog);
    assert!(matches!(o.handle_action(&Actions::RefreshLog), AppCommand::FetchLog(_)));
}

#[test]
fn reset_list_asks_for_a_full_fetch() {
    let mut o = orch_with_list();
    assert!(matches!(o.handle_action(&Actions::ResetList), AppCommand::FetchList));
    assert!(matches!(
        o.handle_action(&Actions::ServiceAction(ServiceAction::RefreshAll)),
        AppCommand::FetchList
    ));
}
