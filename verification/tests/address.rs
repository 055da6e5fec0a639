use http_server::address::listen_address;

#[test]
fn listen_address_writes_the_port_in_decimal() {
    assert_eq!(listen_address(8080), "0.0.0.0:8080");
    assert_eq!(listen_address(80), "0.0.0.0:80");
    assert_eq!(listen_address(0), "0.0.0.0:0");
    assert_eq!(listen_address(10), "0.0.0.0:10");
    assert_eq!(listen_address(65535), "0.0.0.0:65535");
}

#[test]
fn listen_address_matches_std_formatting() {
    for port in 0..=u16::MAX {
        assert_eq!(listen_address(port), format!("0.0.0.0:{}", port));
    }
}
