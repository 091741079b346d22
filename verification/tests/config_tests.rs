use deploy_badge::config::{parse_u16, Config, ConfigError};

#[test]
fn parses_plain_decimal_ports() {
    assert_eq!(parse_u16("3000"), Some(3000));
    assert_eq!(parse_u16("0"), Some(0));
    assert_eq!(parse_u16("65535"), Some(65535));
    assert_eq!(parse_u16("007"), Some(7));
}

#[test]
fn accepts_a_leading_plus_sign() {
    assert_eq!(parse_u16("+80"), Some(80));
    assert_eq!(parse_u16("+"), None);
}

#[test]
fn rejects_out_of_range_values() {
    assert_eq!(parse_u16("65536"), None);
    assert_eq!(parse_u16("99999999999999999999"), None);
}

#[test]
fn rejects_non_digit_input() {
    assert_eq!(parse_u16(""), None);
    assert_eq!(parse_u16("-1"), None);
    assert_eq!(parse_u16("80a"), None);
    assert_eq!(parse_u16("8 0"), None);
    assert_eq!(parse_u16(" 80"), None);
}

#[test]
fn config_requires_url_and_token() {
    let r = Config::from_values(None, Some("tok".to_string()), None);
    assert_eq!(r.err(), Some(ConfigError::MissingUrl));

    let r = Config::from_values(Some("http://c".to_string()), None, None);
    assert_eq!(r.err(), Some(ConfigError::MissingToken));

    // A missing URL is reported first, before the missing token.
    let r = Config::from_values(None, None, Some("bad".to_string()));
    assert_eq!(r.err(), Some(ConfigError::MissingUrl));
}

#[test]
fn config_port_defaults_to_3000() {
    let r = Config::from_values(Some("http://c".to_string()), Some("tok".to_string()), None);
    let c = match r {
        Ok(c) => c,
        Err(_) => panic!("expected a valid configuration"),
    };
    assert_eq!(c.coolify_url, "http://c");
    assert_eq!(c.api_token, "tok");
    assert_eq!(c.port, 3000);
}

#[test]
fn config_rejects_an_unparsable_port() {
    let r = Config::from_values(
        Some("http://c".to_string()),
        Some("tok".to_string()),
        Some("not-a-port".to_string()),
    );
    assert_eq!(r.err(), Some(ConfigError::InvalidPort));

    let r = Config::from_values(
        Some("http://c".to_string()),
        Some("tok".to_string()),
        Some("8080".to_string()),
    );
    let c = match r {
        Ok(c) => c,
        Err(_) => panic!("expected a valid configuration"),
    };
    assert_eq!(c.port, 8080);
}
