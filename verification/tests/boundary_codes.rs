use wireguard_tunnel::TunnelError;
use wireguard_tunnel::boundary;

#[test]
fn ping_answer() {
    assert_eq!(boundary::ping(), "wireguard_tunnel_jni OK");
}

#[test]
fn connect_codes() {
    assert_eq!(boundary::connect_code(&Ok(7)), 7);
    assert_eq!(
        boundary::connect_code(&Err(TunnelError::ConnectionFailed("refused".to_string()))),
        -1
    );
}

#[test]
fn echo_write_then_read_then_eof_codes() {
    // A peer that echoes and closes: the write reports the full
    // length, the first read the echoed count, the next read zero for
    // end-of-stream — distinct from the error sentinel.
    let data_len: usize = 42;
    assert_eq!(boundary::write_code(&Ok(data_len)), 42);
    assert_eq!(boundary::read_code(&Ok(data_len)), 42);
    assert_eq!(boundary::read_code(&Ok(0)), 0);
    assert_eq!(boundary::read_code(&Err("reset".to_string())), -1);
    assert_eq!(boundary::write_code(&Err("reset".to_string())), -1);
}

#[test]
fn flush_codes() {
    assert_eq!(boundary::flush_code(&Ok(())), 0);
    assert_eq!(boundary::flush_code(&Err(TunnelError::InvalidHandle(9))), -1);
}
