//! Port requests of the host.

use vsock::error::IoError;
use vsock::unix::error::Error;
use vsock::unix::muxer::port_request::parse_port_request;
use vsock::unix::muxer::vsock_muxer::VsockMuxer;

fn port(text: &str) -> Option<u32> {
    parse_port_request(text.as_bytes()).ok()
}

#[test]
fn connect_requests() {
    assert_eq!(port("CONNECT 52\n"), Some(52));
    assert_eq!(port("CONNECT 0\n"), Some(0));
    assert_eq!(port("CONNECT 4294967295\n"), Some(u32::MAX));
    assert_eq!(port("CONNECT 52\r\n"), Some(52));
    assert_eq!(port("CONNECT 52"), Some(52));
}

#[test]
fn bare_numbers() {
    assert_eq!(port("52\n"), Some(52));
    assert_eq!(port("  52  "), Some(52));
    assert_eq!(port("+52"), Some(52));
    assert_eq!(port("00052"), Some(52));
}

#[test]
fn unicode_white_space() {
    for space in [
        "\u{9}", "\u{b}", "\u{d}", "\u{20}", "\u{85}", "\u{a0}", "\u{1680}", "\u{2000}", "\u{200a}",
        "\u{2028}", "\u{2029}", "\u{202f}", "\u{205f}", "\u{3000}",
    ] {
        assert_eq!(port(&format!("{}52{}{}", space, space, space)), Some(52));
        assert_eq!(format!("{}52{}", space, space).trim(), "52");
    }
    for other in ["\u{200b}", "\u{2030}", "\u{3001}", "\u{84}"] {
        assert_eq!(port(&format!("52{}", other)), None);
    }
}

#[test]
fn invalid_requests() {
    for text in [
        "", " \n", "+", "-1", "52 53", "CONNECT", "CONNECT ", "CONNECT 4294967296", "4294967296",
        "99999999999999999999999", "connect 52", "5a", "CONNECT52",
    ] {
        assert_eq!(parse_port_request(text.as_bytes()), Err(Error::InvalidPortRequest), "{}", text);
    }
    assert_eq!(parse_port_request(&[0x35, 0x32, 0xff]), Err(Error::InvalidPortRequest));
}

#[test]
fn outcomes_of_reading_a_port() {
    assert_eq!(VsockMuxer::read_local_stream_port(&Ok(b"CONNECT 7\n".to_vec())), Ok(7));
    assert_eq!(VsockMuxer::read_local_stream_port(&Ok(vec![])), Err(Error::BrokenPipe));
    assert_eq!(
        VsockMuxer::read_local_stream_port(&Err(IoError::Os(104))),
        Err(Error::IoError(IoError::Os(104)))
    );
    assert_eq!(
        VsockMuxer::read_local_stream_port(&Ok(b"x".to_vec())),
        Err(Error::InvalidPortRequest)
    );
}
