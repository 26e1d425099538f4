use rzen::session::{AuthMethod, SshConfig};
use rzen::strutil::{join_comma_strs, parse_i64, split_ws, starts_with_str, str_eq, trim_str, u64_to_dec};
use rzen::tui::{MonitorState, Tab};

#[test]
fn trim_removes_surrounding_whitespace_only() {
    assert_eq!(trim_str("  active\n"), "active");
    assert_eq!(trim_str("\t\r\n "), "");
    assert_eq!(trim_str("a b"), "a b");
    assert_eq!(trim_str(""), "");
    assert_eq!(trim_str("no-trim"), "no-trim");
}

#[test]
fn string_comparison_and_prefixes() {
    assert!(str_eq("abc", "abc"));
    assert!(!str_eq("abc", "abd"));
    assert!(!str_eq("abc", "ab"));
    assert!(starts_with_str("https://x", "https://"));
    assert!(!starts_with_str("ftp://x", "http://"));
    assert!(!starts_with_str("ht", "http://"));
}

#[test]
fn decimal_rendering_is_exact() {
    assert_eq!(u64_to_dec(0), "0");
    assert_eq!(u64_to_dec(7), "7");
    assert_eq!(u64_to_dec(1234567890), "1234567890");
    assert_eq!(u64_to_dec(u64::MAX), "18446744073709551615");
}

#[test]
fn parsing_accepts_exactly_signed_decimals_in_range() {
    assert_eq!(parse_i64("0"), Some(0));
    assert_eq!(parse_i64("1700000000"), Some(1700000000));
    assert_eq!(parse_i64("+42"), Some(42));
    assert_eq!(parse_i64("-42"), Some(-42));
    assert_eq!(parse_i64("007"), Some(7));
    assert_eq!(parse_i64("9223372036854775807"), Some(i64::MAX));
    assert_eq!(parse_i64("9223372036854775808"), None);
    assert_eq!(parse_i64("-9223372036854775808"), Some(i64::MIN));
    assert_eq!(parse_i64("-9223372036854775809"), None);
    assert_eq!(parse_i64(""), None);
    assert_eq!(parse_i64("-"), None);
    assert_eq!(parse_i64("12a"), None);
    assert_eq!(parse_i64(" 12"), None);
    assert_eq!(parse_i64("1 2"), None);
}

#[test]
fn splitting_at_whitespace_keeps_the_tokens() {
    let parts = split_ws("  -rw-r--r-- 1 root root\t5.3M  Jan 10 ");
    let parts: Vec<&str> = parts.iter().map(|s| s.as_str()).collect();
    assert_eq!(parts, vec!["-rw-r--r--", "1", "root", "root", "5.3M", "Jan", "10"]);
    assert_eq!(split_ws("").len(), 0);
    assert_eq!(split_ws("   \n").len(), 0);
    assert_eq!(split_ws("one").len(), 1);
}

#[test]
fn joining_with_commas() {
    let v: Vec<String> = vec![];
    assert_eq!(join_comma_strs(&v), "");
    let v = vec!["a".to_string()];
    assert_eq!(join_comma_strs(&v), "a");
    let v = vec!["a".to_string(), "b".to_string(), "c".to_string()];
    assert_eq!(join_comma_strs(&v), "a, b, c");
}

#[test]
fn auth_tries_key_first_then_password() {
    let config = SshConfig {
        host: "h".to_string(),
        port: 2222,
        username: "u".to_string(),
        key_path: Some("/k".to_string()),
        password: Some("p".to_string()),
    };
    assert_eq!(
        config.auth_methods(true),
        vec![AuthMethod::KeyFile, AuthMethod::Password]
    );
    // A configured key whose file is missing falls through to the password.
    assert_eq!(config.auth_methods(false), vec![AuthMethod::Password]);
    assert!(config.has_credentials());
    assert_eq!(config.address(), "h:2222");

    let keyless = SshConfig {
        host: "h".to_string(),
        port: 22,
        username: "u".to_string(),
        key_path: None,
        password: None,
    };
    assert!(!keyless.has_credentials());
    assert_eq!(keyless.auth_methods(true), vec![]);
}

#[test]
fn tabs_cycle_in_both_directions() {
    assert_eq!(Tab::Build.next(), Tab::Deploy);
    assert_eq!(Tab::Exit.next(), Tab::Build);
    assert_eq!(Tab::Build.prev(), Tab::Exit);
    assert_eq!(Tab::Monitor.prev(), Tab::Deploy);
    assert_eq!(Tab::Monitor.title(), "Monitor");
    let mut t = Tab::Build;
    for _ in 0..5 {
        t = t.next();
    }
    assert_eq!(t, Tab::Build);
}

#[test]
fn monitor_pane_replaces_snapshots_whole() {
    let mut state = MonitorState::new();
    assert!(state.status.is_none());
    let snapshot = rzen::monitor::ApplicationStatus {
        health_ok: true,
        ssh_ok: true,
        response_time: Some(3),
        service_status: Some("active".to_string()),
        last_error: None,
    };
    state.apply_update(snapshot, None);
    assert!(state.status.as_ref().unwrap().is_healthy());
    assert!(state.metrics.is_none());
}
