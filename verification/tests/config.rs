use latosol::config::mongodb::{LocationError, read_location};
use latosol::config::params::{DEFAULT_PORT, parse_u16, port};

#[test]
fn port_defaults_when_unset() {
    assert_eq!(port(None), 6969);
    assert_eq!(DEFAULT_PORT, 6969);
}

#[test]
fn port_parses_configured_value() {
    assert_eq!(port(Some("8080")), 8080);
    assert_eq!(port(Some("+443")), 443);
    assert_eq!(port(Some("007")), 7);
}

#[test]
fn port_falls_back_on_invalid_values() {
    assert_eq!(port(Some("")), 6969);
    assert_eq!(port(Some("not a port")), 6969);
    assert_eq!(port(Some("70000")), 6969);
    assert_eq!(port(Some("-1")), 6969);
    assert_eq!(port(Some("80x")), 6969);
    assert_eq!(port(Some("+")), 6969);
}

#[test]
fn parse_u16_exact_values() {
    assert_eq!(parse_u16("0"), Some(0));
    assert_eq!(parse_u16("65535"), Some(65535));
    assert_eq!(parse_u16("65536"), None);
    assert_eq!(parse_u16("99999999999999999999"), None);
    assert_eq!(parse_u16(""), None);
    assert_eq!(parse_u16("+12"), Some(12));
}

#[test]
fn location_needs_both_values() {
    let ok = read_location(Some("mongodb://localhost".to_string()), Some("main".to_string()))
        .unwrap();
    assert_eq!(ok.uri, "mongodb://localhost");
    assert_eq!(ok.database, "main");

    let no_uri = read_location(None, Some("main".to_string()));
    assert_eq!(no_uri.unwrap_err(), LocationError::UriNotSet);

    let no_db = read_location(Some("mongodb://localhost".to_string()), None);
    assert_eq!(no_db.unwrap_err(), LocationError::DatabaseNotSet);

    let neither = read_location(None, None);
    assert_eq!(neither.unwrap_err(), LocationError::UriNotSet);
}

#[test]
fn location_error_messages() {
    assert_eq!(
        LocationError::UriNotSet.message(),
        "$LATOSOL_MONGODB_URI is not set!"
    );
    assert_eq!(
        LocationError::DatabaseNotSet.message(),
        "$LATOSOL_MONGODB_DATABASE is not set!"
    );
}
