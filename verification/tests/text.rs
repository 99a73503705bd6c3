use locaryn_plugin_ssh::text::{push_decimal, starts_with, str_equal, trim};

#[test]
fn trim_strips_ascii_white_space() {
    assert_eq!(trim("  root\n"), "root");
    assert_eq!(trim("\t\r\nok \x0b\x0c"), "ok");
    assert_eq!(trim("   "), "");
    assert_eq!(trim(""), "");
    assert_eq!(trim("a b"), "a b");
}

#[test]
fn trim_strips_unicode_white_space() {
    let s = "\u{3000}\u{a0}Linux box\u{2028}\u{85}\u{200a}";
    assert_eq!(trim(s), "Linux box");
    assert_eq!(trim(s), s.trim());
    let t = "\u{200b}x\u{200b}";
    assert_eq!(trim(t), t.trim());
}

#[test]
fn str_equal_compares_contents() {
    assert!(str_equal("yes", "yes"));
    assert!(!str_equal("yes", "yes "));
    assert!(!str_equal("é", "e"));
}

#[test]
fn starts_with_checks_prefix() {
    assert!(starts_with("notifications/initialized", "notifications/"));
    assert!(starts_with("abc", ""));
    assert!(!starts_with("notifications", "notifications/"));
    assert!(!starts_with("xnotifications/", "notifications/"));
}

#[test]
fn decimal_renders_without_leading_zeros() {
    for n in [0u64, 7, 10, 22, 65535, u64::MAX] {
        let mut out = String::from("port ");
        push_decimal(&mut out, n);
        assert_eq!(out, format!("port {}", n));
    }
}
