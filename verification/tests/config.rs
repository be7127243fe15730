use sidecar::config::{config_from_env, parse_port, DEFAULT_PORT};

#[test]
fn parses_plain_ports() {
    assert_eq!(parse_port("8080"), Some(8080));
    assert_eq!(parse_port("0"), Some(0));
    assert_eq!(parse_port("65535"), Some(65535));
    assert_eq!(parse_port("0080"), Some(80));
}

#[test]
fn accepts_one_leading_plus_sign() {
    assert_eq!(parse_port("+80"), Some(80));
    assert_eq!(parse_port("+"), None);
    assert_eq!(parse_port("++80"), None);
}

#[test]
fn rejects_invalid_ports() {
    assert_eq!(parse_port(""), None);
    assert_eq!(parse_port("65536"), None);
    assert_eq!(parse_port("99999999999999999999"), None);
    assert_eq!(parse_port("abc"), None);
    assert_eq!(parse_port("12a"), None);
    assert_eq!(parse_port("-1"), None);
    assert_eq!(parse_port("80 "), None);
}

#[test]
fn defaults_apply_when_environment_is_empty() {
    let c = match config_from_env(None, None) {
        Ok(c) => c,
        Err(e) => panic!("defaults are valid: {}", e),
    };
    assert!(c.host == "127.0.0.1");
    assert_eq!(c.port, DEFAULT_PORT);
    assert_eq!(c.port, 8080);
}

#[test]
fn explicit_environment_values_are_used() {
    let c = match config_from_env(Some("0.0.0.0".to_string()), Some("9090")) {
        Ok(c) => c,
        Err(e) => panic!("valid port: {}", e),
    };
    assert!(c.host == "0.0.0.0");
    assert_eq!(c.port, 9090);
}

#[test]
fn invalid_port_is_a_fatal_startup_error() {
    let e = match config_from_env(None, Some("not-a-port")) {
        Ok(_) => panic!("invalid port must fail"),
        Err(e) => e,
    };
    assert!(e == "Invalid PORT specified");
}
