use web_server::config::{parse_port, port_text, resolve_port, ConfigError, DEFAULT_PORT};

#[test]
fn absent_port_uses_default() {
    assert_eq!(resolve_port(None), Ok(8080));
    assert_eq!(DEFAULT_PORT, 8080);
}

#[test]
fn numeric_port_is_used() {
    assert_eq!(resolve_port(Some("9090")), Ok(9090));
}

#[test]
fn non_numeric_port_is_refused() {
    assert_eq!(resolve_port(Some("not-a-number")), Err(ConfigError::PortNotANumber));
}

#[test]
fn out_of_range_port_is_refused() {
    assert_eq!(resolve_port(Some("65536")), Err(ConfigError::PortNotANumber));
    assert_eq!(resolve_port(Some("100000")), Err(ConfigError::PortNotANumber));
    assert_eq!(resolve_port(Some("99999999999999999999")), Err(ConfigError::PortNotANumber));
}

#[test]
fn port_bounds_are_accepted() {
    assert_eq!(parse_port("0"), Some(0));
    assert_eq!(parse_port("65535"), Some(65535));
    assert_eq!(parse_port("00080"), Some(80));
}

#[test]
fn leading_plus_is_accepted() {
    assert_eq!(parse_port("+80"), Some(80));
    assert_eq!(parse_port("++80"), None);
    assert_eq!(parse_port("+"), None);
}

#[test]
fn malformed_port_texts_are_refused() {
    assert_eq!(parse_port(""), None);
    assert_eq!(parse_port("-1"), None);
    assert_eq!(parse_port("-0"), None);
    assert_eq!(parse_port(" 80"), None);
    assert_eq!(parse_port("80 "), None);
    assert_eq!(parse_port("8o"), None);
    assert_eq!(parse_port("٣"), None);
}

#[test]
fn parse_agrees_with_std_on_samples() {
    for text in ["0", "1", "+7", "8080", "65535", "65536", "", "+", "-5", "1_0", "0x10", " 1", "12a"] {
        assert_eq!(parse_port(text), text.parse::<u16>().ok(), "text {:?}", text);
    }
}

#[test]
fn every_port_text_round_trips() {
    for p in 0..=u16::MAX {
        let text = port_text(p);
        assert_eq!(text, p.to_string());
        assert_eq!(resolve_port(Some(&text)), Ok(p));
    }
}

#[test]
fn port_text_exact_values() {
    assert_eq!(port_text(0), "0");
    assert_eq!(port_text(7), "7");
    assert_eq!(port_text(10), "10");
    assert_eq!(port_text(8080), "8080");
    assert_eq!(port_text(65535), "65535");
}

#[test]
fn config_error_message() {
    assert_eq!(ConfigError::PortNotANumber.message(), "PORT must be a number");
}
