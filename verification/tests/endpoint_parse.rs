use wireguard_tunnel::Endpoint;
use wireguard_tunnel::TunnelError;
use wireguard_tunnel::parse_endpoint;

#[test]
fn parses_plain_address() {
    let ep = parse_endpoint("10.0.0.1", 80).unwrap();
    assert_eq!(ep, Endpoint { a: 10, b: 0, c: 0, d: 1, port: 80 });
}

#[test]
fn parses_full_range_address() {
    let ep = parse_endpoint("255.255.255.255", 65535).unwrap();
    assert_eq!(ep, Endpoint { a: 255, b: 255, c: 255, d: 255, port: 65535 });
}

#[test]
fn parses_zero_address_and_port() {
    let ep = parse_endpoint("0.0.0.0", 0).unwrap();
    assert_eq!(ep, Endpoint { a: 0, b: 0, c: 0, d: 0, port: 0 });
}

#[test]
fn parses_mixed_width_octets() {
    let ep = parse_endpoint("192.168.4.77", 25565).unwrap();
    assert_eq!(ep, Endpoint { a: 192, b: 168, c: 4, d: 77, port: 25565 });
}

#[test]
fn rejects_hostname() {
    assert!(matches!(
        parse_endpoint("example.com", 80),
        Err(TunnelError::ConnectionFailed(_))
    ));
}

#[test]
fn rejects_octet_over_255() {
    assert!(parse_endpoint("256.0.0.1", 80).is_err());
    assert!(parse_endpoint("1.2.3.999", 80).is_err());
}

#[test]
fn rejects_wrong_component_count() {
    assert!(parse_endpoint("1.2.3", 80).is_err());
    assert!(parse_endpoint("1.2.3.4.5", 80).is_err());
    assert!(parse_endpoint("", 80).is_err());
    assert!(parse_endpoint("1...", 80).is_err());
}

#[test]
fn rejects_leading_zero_octet() {
    assert!(parse_endpoint("01.2.3.4", 80).is_err());
    assert!(parse_endpoint("1.2.3.007", 80).is_err());
}

#[test]
fn rejects_empty_or_long_octet() {
    assert!(parse_endpoint(".1.2.3", 80).is_err());
    assert!(parse_endpoint("1.2.3.", 80).is_err());
    assert!(parse_endpoint("1234.0.0.1", 80).is_err());
}

#[test]
fn rejects_non_digit_octet() {
    assert!(parse_endpoint("1.2.x.4", 80).is_err());
    assert!(parse_endpoint("1.2. 3.4", 80).is_err());
}

#[test]
fn rejects_out_of_range_port() {
    assert!(matches!(
        parse_endpoint("10.0.0.1", -1),
        Err(TunnelError::ConnectionFailed(_))
    ));
    assert!(parse_endpoint("10.0.0.1", 65536).is_err());
}
