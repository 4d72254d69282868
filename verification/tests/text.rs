use systemd_manager_tui::text::{
    ascii_lower, contains_lower, str_contains, str_ends_with, str_eq, str_lex_lower_le,
};

#[test]
fn ascii_case_folding_touches_only_letters() {
    assert_eq!(ascii_lower('A'), 'a');
    assert_eq!(ascii_lower('Z'), 'z');
    assert_eq!(ascii_lower('a'), 'a');
    assert_eq!(ascii_lower('.'), '.');
    assert_eq!(ascii_lower('0'), '0');
}

#[test]
fn equality_compares_characters() {
    assert!(str_eq("nginx.service", "nginx.service"));
    assert!(!str_eq("nginx.service", "Nginx.service"));
    assert!(!str_eq("abc", "abcd"));
    assert!(str_eq("", ""));
}

#[test]
fn suffix_test() {
    assert!(str_ends_with("nginx.service", ".service"));
    assert!(!str_ends_with("dbus.socket", ".service"));
    assert!(str_ends_with("activating", "ing"));
    assert!(!str_ends_with("ing", "acting"));
    assert!(str_ends_with("anything", ""));
}

#[test]
fn substring_search_ignoring_case() {
    assert!(contains_lower("Network-Manager.service", "manager"));
    assert!(contains_lower("nginx.service", ""));
    assert!(!contains_lower("nginx.service", "apache"));
    assert!(contains_lower("ABC", "abc"));
    assert!(!contains_lower("ab", "abc"));
}

#[test]
fn exact_substring_search() {
    assert!(str_contains("org.freedesktop.DBus.Error.NoReply: timeout", "NoReply"));
    assert!(!str_contains("org.freedesktop.DBus.Error.NoReply", "noreply"));
}

#[test]
fn case_insensitive_name_order() {
    assert!(str_lex_lower_le("Apache.service", "cron.service"));
    assert!(!str_lex_lower_le("cron.service", "Apache.service"));
    assert!(str_lex_lower_le("abc", "abc"));
    assert!(str_lex_lower_le("abc", "abcd"));
    assert!(!str_lex_lower_le("abcd", "abc"));
    assert!(str_lex_lower_le("NGINX", "nginx"));
    assert!(str_lex_lower_le("nginx", "NGINX"));
}
