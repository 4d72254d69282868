use systemd_manager_tui::notifier::{failure_notice, failure_summary};

fn changed(pairs: &[(&str, Option<&str>)]) -> Vec<(String, Option<String>)> {
    pairs.iter().map(|(k, v)| (k.to_string(), v.map(|s| s.to_string()))).collect()
}

#[test]
fn failed_unit_raises_an_alert_with_the_decoded_name() {
    let r = failure_notice(
        "org.freedesktop.systemd1.Unit",
        &changed(&[("ActiveState", Some("failed")), ("SubState", Some("failed"))]),
        "/org/freedesktop/systemd1/unit/foo_2eservice",
    );
    assert_eq!(r, Some("foo.service".to_string()));
}

#[test]
fn other_interfaces_are_ignored() {
    let r = failure_notice(
        "org.freedesktop.systemd1.Manager",
        &changed(&[("ActiveState", Some("failed"))]),
        "/org/freedesktop/systemd1/unit/foo_2eservice",
    );
    assert_eq!(r, None);
}

#[test]
fn signals_without_active_state_are_ignored() {
    let r = failure_notice(
        "org.freedesktop.systemd1.Unit",
        &changed(&[("SubState", Some("running"))]),
        "/org/freedesktop/systemd1/unit/foo_2eservice",
    );
    assert_eq!(r, None);
}

#[test]
fn non_failed_states_are_ignored() {
    let r = failure_notice(
        "org.freedesktop.systemd1.Unit",
        &changed(&[("ActiveState", Some("active"))]),
        "/org/freedesktop/systemd1/unit/foo_2eservice",
    );
    assert_eq!(r, None);
}

#[test]
fn non_string_active_state_is_ignored() {
    let r = failure_notice(
        "org.freedesktop.systemd1.Unit",
        &changed(&[("ActiveState", None)]),
        "/org/freedesktop/systemd1/unit/foo_2eservice",
    );
    assert_eq!(r, None);
}

#[test]
fn summary_names_the_unit_and_the_word_failed() {
    assert_eq!(failure_summary("foo.service"), "foo.service failed");
}
