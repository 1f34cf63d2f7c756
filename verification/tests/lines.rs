use socket_demo::endpoint::Endpoint;
use socket_demo::endpoint::server_endpoint;
use socket_demo::endpoint::udp_client_endpoint;
use socket_demo::protocol::message_line;
use socket_demo::protocol::recv_line;
use socket_demo::protocol::sent_line;
use socket_demo::protocol::server_banner;
use socket_demo::protocol::server_message;
use socket_demo::protocol::tcp_client_line;
use socket_demo::protocol::udp_client_message;
use socket_demo::protocol::udp_server_message;
use socket_demo::protocol::udp_server_step;
use socket_demo::text::decode_lossy;

#[test]
fn fixed_endpoints() {
    let s = server_endpoint();
    assert_eq!((s.a, s.b, s.c, s.d, s.port), (127, 0, 0, 1, 8080));
    let c = udp_client_endpoint();
    assert_eq!((c.a, c.b, c.c, c.d, c.port), (127, 0, 0, 1, 9090));
}

#[test]
fn fixed_messages() {
    assert_eq!(server_message(), b"Hello, from server");
    assert_eq!(udp_client_message(), b"Hello, from udp client");
    assert_eq!(udp_server_message(), b"Hello, from udp server");
}

#[test]
fn messages_decode_back_to_their_text() {
    assert_eq!(decode_lossy(&server_message()), "Hello, from server");
    assert_eq!(decode_lossy(&udp_client_message()), "Hello, from udp client");
    assert_eq!(decode_lossy(&udp_server_message()), "Hello, from udp server");
}

#[test]
fn banner() {
    assert_eq!(server_banner(), "Server listening on port 8080");
}

#[test]
fn tcp_client_line_fixed_message() {
    assert_eq!(
        tcp_client_line(b"Hello, from server"),
        "RECEIVED: \"Hello, from server\""
    );
}

#[test]
fn tcp_client_line_empty() {
    assert_eq!(tcp_client_line(b""), "RECEIVED: \"\"");
}

#[test]
fn tcp_client_line_matches_format() {
    for bytes in [
        &b"Hello, from server"[..],
        &b""[..],
        &[0xffu8, b'"', b'\\', b'\n'][..],
        "h\u{e9}llo \u{1f980}".as_bytes(),
    ] {
        let expected = format!("RECEIVED: {:?}", String::from_utf8_lossy(bytes));
        assert_eq!(tcp_client_line(bytes), expected);
    }
}

#[test]
fn recv_line_exact() {
    let src = Endpoint::new(127, 0, 0, 1, 8080);
    assert_eq!(recv_line(22, &src), "Received 22 bytes from 127.0.0.1:8080");
}

#[test]
fn message_line_truncates_to_len() {
    let mut buf = [0u8; 16];
    buf[..5].copy_from_slice(b"hello");
    buf[5] = b'x';
    assert_eq!(message_line(&buf, 5), "MESSAGE: hello");
}

#[test]
fn message_line_lossy() {
    let buf = [b'a', 0xff, b'b'];
    assert_eq!(message_line(&buf, 3), "MESSAGE: a\u{FFFD}b");
}

#[test]
fn sent_line_exact() {
    let dest = Endpoint::new(127, 0, 0, 1, 9090);
    assert_eq!(sent_line(22, &dest), "Sent 22 bytes back to 127.0.0.1:9090");
}

#[test]
fn udp_server_step_replies_to_source() {
    let src = Endpoint::new(127, 0, 0, 1, 40000);
    let reply = udp_server_step(&src);
    assert_eq!(reply.dest, src);
    assert_eq!(reply.payload, b"Hello, from udp server");
    let other = Endpoint::new(127, 0, 0, 1, 40001);
    let reply2 = udp_server_step(&other);
    assert_eq!(reply2.dest, other);
    assert_eq!(reply2.payload, b"Hello, from udp server");
}
