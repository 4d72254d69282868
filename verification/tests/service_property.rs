use systemd_manager_tui::service::{Service, ServiceState};
use systemd_manager_tui::service_property::{ExecCommand, ServiceProperty};

fn cmd(path: &str, args: &[&str]) -> ExecCommand {
    ExecCommand {
        path: path.to_string(),
        args: args.iter().map(|a| a.to_string()).collect(),
        ignore_exit_status: false,
        start_timestamp: 0,
        exit_timestamp: 0,
        pid: 0,
        exit_code: 0,
        exit_status: 0,
        user_id: 0,
        group_id: 0,
    }
}

fn props(exec_start: Vec<ExecCommand>) -> ServiceProperty {
    ServiceProperty::new(
        exec_start,
        vec![],
        vec![],
        vec![],
        vec![],
        101,
        1_000_000,
        2_000_000,
        1,
        0,
        101,
        0,
        "on-failure".to_string(),
        100_000,
        "Ready.".to_string(),
        "success".to_string(),
        "root".to_string(),
        "root".to_string(),
        1,
        1024,
        512,
        65536,
        1_000_000,
        1024,
    )
}

#[test]
fn exec_fields_join_arguments_and_commands() {
    let p = props(vec![
        cmd("/usr/bin/foo", &["/usr/bin/foo", "--flag", "value"]),
        cmd("/usr/bin/bar", &["/usr/bin/bar"]),
    ]);
    assert_eq!(p.formatted_exec_start(), "/usr/bin/foo --flag value\n/usr/bin/bar");
    assert_eq!(p.formatted_exec_stop(), "");
}

#[test]
fn exec_field_with_no_arguments_renders_empty_lines() {
    let p = props(vec![cmd("/usr/bin/foo", &[])]);
    assert_eq!(p.formatted_exec_start(), "");
}

#[test]
fn timestamps_render_as_utc_calendar_text() {
    let p = props(vec![]);
    assert_eq!(p.format_timestamp(0), "1970-01-01 00:00:00");
    assert_eq!(p.format_timestamp(1431648000), "2015-05-15 00:00:00");
    assert_eq!(p.format_timestamp(1431649323), "2015-05-15 00:22:03");
}

#[test]
fn getters_return_the_stored_fields() {
    let p = props(vec![cmd("/usr/bin/foo", &["/usr/bin/foo"])]);
    assert_eq!(p.exec_start().len(), 1);
    assert_eq!(p.exec_start_pre().len(), 0);
    assert_eq!(p.exec_start_post().len(), 0);
    assert_eq!(p.exec_stop().len(), 0);
    assert_eq!(p.exec_stop_post().len(), 0);
    assert_eq!(p.exec_main_pid(), 101);
    assert_eq!(p.exec_main_start_timestamp(), 1_000_000);
    assert_eq!(p.exec_main_exit_timestamp(), 2_000_000);
    assert_eq!(p.exec_main_code(), 1);
    assert_eq!(p.exec_main_status(), 0);
    assert_eq!(p.main_pid(), 101);
    assert_eq!(p.control_pid(), 0);
    assert_eq!(p.restart(), "on-failure");
    assert_eq!(p.restart_usec(), 100_000);
    assert_eq!(p.status_text(), "Ready.");
    assert_eq!(p.result(), "success");
    assert_eq!(p.user(), "root");
    assert_eq!(p.group(), "root");
    assert_eq!(p.limit_cpu(), 1);
    assert_eq!(p.limit_nofile(), 1024);
    assert_eq!(p.limit_nproc(), 512);
    assert_eq!(p.limit_memlock(), 65536);
    assert_eq!(p.memory_limit(), 1_000_000);
    assert_eq!(p.cpu_shares(), 1024);
}

#[test]
fn service_accessors_and_state_updates() {
    let st = ServiceState::new(
        "loaded".to_string(),
        "activating".to_string(),
        "start-pre".to_string(),
        "...".to_string(),
    );
    assert_eq!(st.load(), "loaded");
    assert_eq!(st.active(), "activating");
    assert_eq!(st.sub(), "start-pre");
    assert_eq!(st.file(), "...");
    assert!(st.is_transient());

    let mut s = Service::new("foo.service".to_string(), "Foo daemon".to_string(), st);
    assert_eq!(s.name(), "foo.service");
    assert_eq!(s.description(), "Foo daemon");
    assert!(s.state().is_transient());
    s.set_file_state("enabled".to_string());
    assert_eq!(s.state().file(), "enabled");
    assert_eq!(s.state().active(), "activating");

    let terminal = ServiceState::new(
        "loaded".to_string(),
        "active".to_string(),
        "running".to_string(),
        "enabled".to_string(),
    );
    assert!(!terminal.is_transient());
    let failed = ServiceState::new(
        "loaded".to_string(),
        "failed".to_string(),
        "failed".to_string(),
        "enabled".to_string(),
    );
    assert!(!failed.is_transient());
}
