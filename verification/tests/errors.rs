use systemd_manager_tui::errors::get_user_friendly_error;

#[test]
fn known_protocol_errors_become_readable_messages() {
    assert_eq!(
        get_user_friendly_error(
            "org.freedesktop.DBus.Error.InteractiveAuthorizationRequired: auth needed"
        ),
        "You do not have the permission to do that. Try running the program with sudo."
    );
    assert_eq!(
        get_user_friendly_error("call failed: org.freedesktop.DBus.Error.ServiceUnknown"),
        "The requested service is not available or not running."
    );
    assert_eq!(
        get_user_friendly_error("org.freedesktop.DBus.Error.NoReply after 25s"),
        "The service did not respond in time. It might be busy or not functioning properly."
    );
    assert_eq!(
        get_user_friendly_error("org.freedesktop.DBus.Error.AccessDenied"),
        "Access denied. You don't have sufficient permissions for this operation."
    );
    assert_eq!(
        get_user_friendly_error("org.freedesktop.systemd1.NoSuchUnit: nope.service"),
        "The requested service unit doesn't exist."
    );
}

#[test]
fn unknown_errors_pass_through_unchanged() {
    assert_eq!(get_user_friendly_error("connection reset by peer"), "connection reset by peer");
    assert_eq!(get_user_friendly_error(""), "");
}
