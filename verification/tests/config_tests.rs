use station_bridge::config::{
    bind_target, resolve_port, resolve_upstream_url, ConfigError, ResolvedPort,
};
use station_bridge::text::{parse_u16, u16_to_dec};

#[test]
fn port_defaults_to_3000() {
    assert_eq!(resolve_port(None), Ok(ResolvedPort { port: 3000, defaulted: true }));
}

#[test]
fn port_is_read_from_the_environment_value() {
    assert_eq!(resolve_port(Some("8080")), Ok(ResolvedPort { port: 8080, defaulted: false }));
}

#[test]
fn port_accepts_a_plus_sign_and_leading_zeros() {
    assert_eq!(resolve_port(Some("+123")), Ok(ResolvedPort { port: 123, defaulted: false }));
    assert_eq!(resolve_port(Some("00080")), Ok(ResolvedPort { port: 80, defaulted: false }));
}

#[test]
fn malformed_port_is_fatal() {
    assert_eq!(resolve_port(Some("abc")), Err(ConfigError::MalformedPort));
    assert_eq!(resolve_port(Some("")), Err(ConfigError::MalformedPort));
    assert_eq!(resolve_port(Some("+")), Err(ConfigError::MalformedPort));
    assert_eq!(resolve_port(Some("-1")), Err(ConfigError::MalformedPort));
    assert_eq!(resolve_port(Some("80 ")), Err(ConfigError::MalformedPort));
    assert_eq!(resolve_port(Some("65536")), Err(ConfigError::MalformedPort));
}

#[test]
fn largest_port_is_accepted() {
    assert_eq!(resolve_port(Some("65535")), Ok(ResolvedPort { port: 65535, defaulted: false }));
}

#[test]
fn bind_address_joins_host_and_port() {
    let target = bind_target(Some("example.com"), 8080);
    assert_eq!(target.addr, "example.com:8080");
    assert!(!target.host_defaulted);
}

#[test]
fn bind_address_falls_back_to_loopback() {
    let target = bind_target(None, 3000);
    assert_eq!(target.addr, "[::1]:3000");
    assert!(target.host_defaulted);
}

#[test]
fn upstream_url_is_required() {
    assert_eq!(resolve_upstream_url(None), Err(ConfigError::MissingUpstreamUrl));
    assert_eq!(
        resolve_upstream_url(Some(String::from("https://sapi.example"))),
        Ok(String::from("https://sapi.example"))
    );
}

#[test]
fn decimal_rendering_is_exact() {
    assert_eq!(u16_to_dec(0), "0");
    assert_eq!(u16_to_dec(7), "7");
    assert_eq!(u16_to_dec(3000), "3000");
    assert_eq!(u16_to_dec(65535), "65535");
}

#[test]
fn parsing_inverts_rendering() {
    for n in [0u16, 1, 9, 10, 3000, 8080, 65535] {
        assert_eq!(parse_u16(&u16_to_dec(n)), Some(n));
    }
}
