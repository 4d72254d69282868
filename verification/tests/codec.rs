use systemd_manager_tui::unit_path::{decode_unit_path, encode_unit_name};

#[test]
fn decode_simple_service_path() {
    let name = decode_unit_path("/org/freedesktop/systemd1/unit/foo_2eservice");
    assert_eq!(name, "foo.service");
}

#[test]
fn decode_takes_last_segment() {
    assert_eq!(decode_unit_path("a/b/c"), "c");
    assert_eq!(decode_unit_path("plain"), "plain");
    assert_eq!(decode_unit_path("ends/with/slash/"), "");
}

#[test]
fn decode_hex_escapes() {
    assert_eq!(decode_unit_path("dev_2dmapper"), "dev-mapper");
    assert_eq!(decode_unit_path("with_20space"), "with space");
    assert_eq!(decode_unit_path("under_5fscore"), "under_score");
}

#[test]
fn decode_accepts_lowercase_hex() {
    assert_eq!(decode_unit_path("foo_2eservice"), "foo.service");
    assert_eq!(decode_unit_path("foo_2Eservice"), "foo.service");
}

#[test]
fn decode_leaves_bad_escapes_alone() {
    // an underscore not followed by two hex digits passes through unchanged
    assert_eq!(decode_unit_path("trail_"), "trail_");
    assert_eq!(decode_unit_path("trail_1"), "trail_1");
    assert_eq!(decode_unit_path("bad_zzend"), "bad_zzend");
}

#[test]
fn encode_escapes_unsafe_bytes() {
    assert_eq!(encode_unit_name("foo.service"), "foo_2Eservice");
    assert_eq!(encode_unit_name("dev-mapper"), "dev_2Dmapper");
    assert_eq!(encode_unit_name("a b"), "a_20b");
    assert_eq!(encode_unit_name("under_score"), "under_5Fscore");
    assert_eq!(encode_unit_name("plain09AZ"), "plain09AZ");
}

#[test]
fn round_trip_over_escaped_alphabet() {
    for name in ["foo.service", "dev-mapper", "a b c", "x_y_z", "run-media-usb0.mount", "-.slice"]
    {
        let encoded = encode_unit_name(name);
        let path = format!("/org/freedesktop/systemd1/unit/{}", encoded);
        assert_eq!(decode_unit_path(&path), name);
    }
}
