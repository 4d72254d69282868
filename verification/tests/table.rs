use systemd_manager_tui::service::{Service, ServiceState};
use systemd_manager_tui::table::{ActiveFilterState, ServiceTable};

fn svc(name: &str, active: &str, file: &str) -> Service {
    Service::new(
        name.to_string(),
        format!("{} description", name),
        ServiceState::new("loaded".to_string(), active.to_string(), "running".to_string(), file.to_string()),
    )
}

fn names(list: &[Service]) -> Vec<String> {
    list.iter().map(|s| s.name().to_string()).collect()
}

fn listing() -> Vec<Service> {
    vec![
        svc("nginx.service", "active", "enabled"),
        svc("Apache.service", "inactive", "disabled"),
        svc("cron.service", "failed", "enabled"),
        svc("dbus.socket", "active", "static"),
        svc("nginx.service", "inactive", "disabled"), // duplicate name, later occurrence loses
        svc("zfs.service", "activating", "enabled"),
    ]
}

#[test]
fn set_services_dedups_and_sorts_case_insensitively() {
    let mut t = ServiceTable::new();
    t.set_services(&listing());
    assert_eq!(
        names(&t.services),
        vec!["Apache.service", "cron.service", "dbus.socket", "nginx.service", "zfs.service"]
    );
    // first occurrence of the duplicated name won
    let nginx = t.services.iter().find(|s| s.name() == "nginx.service").unwrap();
    assert_eq!(nginx.state().active(), "active");
}

#[test]
fn filtered_view_is_ordered_subset_matching_the_predicates() {
    let mut t = ServiceTable::new();
    t.set_services(&listing());
    t.refresh("n");
    // case-insensitive substring "n" over .service units only
    assert_eq!(names(&t.filtered_services), vec!["cron.service", "nginx.service"]);
    for s in &t.filtered_services {
        assert!(s.name().to_lowercase().contains("n"));
        assert!(s.name().ends_with(".service"));
    }
    // relative order of the source list is preserved
    let src = names(&t.services);
    let mut last = 0;
    for n in names(&t.filtered_services) {
        let pos = src.iter().position(|x| *x == n).unwrap();
        assert!(pos >= last);
        last = pos;
    }
}

#[test]
fn selection_is_none_iff_filtered_view_is_empty() {
    let mut t = ServiceTable::new();
    t.set_services(&listing());
    t.refresh("no-such-name");
    assert!(t.filtered_services.is_empty());
    assert_eq!(t.selected, None);
    t.refresh("");
    assert!(!t.filtered_services.is_empty());
    let i = t.selected.expect("non-empty view must select");
    assert!(i < t.filtered_services.len());
}

#[test]
fn selection_clamps_when_view_shrinks() {
    let mut t = ServiceTable::new();
    t.set_services(&listing());
    t.refresh("");
    t.set_selected_index(3);
    assert_eq!(t.selected, Some(3));
    t.refresh("nginx");
    assert_eq!(names(&t.filtered_services), vec!["nginx.service"]);
    assert_eq!(t.selected, Some(0));
}

#[test]
fn toggle_filter_twice_restores_the_filtered_view() {
    let mut t = ServiceTable::new();
    t.set_services(&listing());
    t.refresh("");
    let before = names(&t.filtered_services);
    t.toggle_show_all();
    assert_eq!(
        names(&t.filtered_services),
        vec!["Apache.service", "cron.service", "dbus.socket", "nginx.service", "zfs.service"]
    );
    t.toggle_show_all();
    assert_eq!(names(&t.filtered_services), before);
}

#[test]
fn activity_filter_cycles_and_filters() {
    let mut t = ServiceTable::new();
    t.set_services(&listing());
    t.refresh("");
    assert_eq!(t.get_active_filter_state().as_str(), "all");
    t.cycle_activity_filter();
    assert_eq!(t.get_active_filter_state().as_str(), "active");
    assert_eq!(names(&t.filtered_services), vec!["nginx.service"]);
    t.cycle_activity_filter();
    assert_eq!(t.get_active_filter_state().as_str(), "inactive");
    // neither active nor failed
    assert_eq!(names(&t.filtered_services), vec!["Apache.service", "zfs.service"]);
    t.cycle_activity_filter();
    assert_eq!(t.get_active_filter_state().as_str(), "failed");
    assert_eq!(names(&t.filtered_services), vec!["cron.service"]);
    t.cycle_activity_filter();
    assert_eq!(t.get_active_filter_state().as_str(), "all");
}

#[test]
fn next_cycles_through_all_states() {
    let a = ActiveFilterState::All;
    let b = a.next();
    let c = b.next();
    let d = c.next();
    let e = d.next();
    assert_eq!(b.as_str(), "active");
    assert_eq!(c.as_str(), "inactive");
    assert_eq!(d.as_str(), "failed");
    assert_eq!(e.as_str(), "all");
}

#[test]
fn update_with_service_replaces_by_name() {
    let mut t = ServiceTable::new();
    t.set_services(&listing());
    t.refresh("");
    t.update_with_service(svc("cron.service", "active", "enabled"));
    let cron = t.services.iter().find(|s| s.name() == "cron.service").unwrap();
    assert_eq!(cron.state().active(), "active");
    assert_eq!(t.services.len(), 5);
}

#[test]
fn update_with_service_appends_new_names() {
    let mut t = ServiceTable::new();
    t.set_services(&listing());
    t.refresh("");
    t.update_with_service(svc("new.service", "inactive", "disabled"));
    assert_eq!(t.services.len(), 6);
    assert_eq!(t.services.last().unwrap().name(), "new.service");
}

#[test]
fn selection_moves_and_wraps() {
    let mut t = ServiceTable::new();
    t.set_services(&listing());
    t.refresh("");
    // 4 services are visible without show-all
    assert_eq!(t.filtered_services.len(), 4);
    assert_eq!(t.selected, Some(0));
    t.select_next();
    assert_eq!(t.selected, Some(1));
    t.select_previous();
    assert_eq!(t.selected, Some(0));
    t.select_previous();
    assert_eq!(t.selected, Some(3));
    t.select_next();
    assert_eq!(t.selected, Some(0));
    t.select_page_down();
    assert_eq!(t.selected, Some(2)); // 10 % 4
    t.select_page_up();
    assert_eq!(t.selected, Some(0));
}

#[test]
fn get_selected_service_follows_the_selection() {
    let mut t = ServiceTable::new();
    t.set_services(&listing());
    t.refresh("");
    t.set_selected_index(1);
    let s = t.get_selected_service().unwrap();
    assert_eq!(s.name(), t.filtered_services[1].name());
    t.refresh("no-such-name");
    assert!(t.get_selected_service().is_none());
}

#[test]
fn enrichment_fills_placeholders_only() {
    let mut t = ServiceTable::new();
    t.set_services(&vec![
        svc("bar.service", "active", "enabled"),
        svc("foo.service", "active", "..."),
        svc("baz.service", "inactive", "..."),
    ]);
    t.refresh("");
    let states = vec![
        ("foo.service".to_string(), "static".to_string()),
        ("bar.service".to_string(), "masked".to_string()),
    ];
    t.apply_enrichment(&states);
    let by_name = |t: &ServiceTable, n: &str| -> String {
        t.services.iter().find(|s| s.name() == n).unwrap().state().file().to_string()
    };
    // the placeholder was replaced
    assert_eq!(by_name(&t, "foo.service"), "static");
    // a directly fetched value is never overwritten by the background map
    assert_eq!(by_name(&t, "bar.service"), "enabled");
    // a placeholder with no entry in the map stays a placeholder
    assert_eq!(by_name(&t, "baz.service"), "...");
}
