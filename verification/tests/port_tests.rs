use anisette_bridge::{choose_port, parse_port, DEFAULT_PORT};

#[test]
fn parses_plain_decimal_ports() {
    assert_eq!(parse_port("4321"), Some(4321));
    assert_eq!(parse_port("0"), Some(0));
    assert_eq!(parse_port("80"), Some(80));
    assert_eq!(parse_port("65535"), Some(65535));
}

#[test]
fn rejects_what_is_not_a_port() {
    assert_eq!(parse_port(""), None);
    assert_eq!(parse_port("65536"), None);
    assert_eq!(parse_port("99999999999999999999"), None);
    assert_eq!(parse_port("12a"), None);
    assert_eq!(parse_port("-1"), None);
    assert_eq!(parse_port(" 80"), None);
}

#[test]
fn default_port_when_no_argument() {
    assert_eq!(DEFAULT_PORT, 4321);
    assert_eq!(choose_port(None), 4321);
}

#[test]
fn argument_names_the_port_or_falls_back() {
    assert_eq!(choose_port(Some("8080")), 8080);
    assert_eq!(choose_port(Some("not a port")), 4321);
    assert_eq!(choose_port(Some("70000")), 4321);
}
