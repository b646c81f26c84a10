use ctmonitor::websocket::{
    bad_request_response, compute_accept_key, is_close_frame, parse_upgrade_key,
    upgrade_response, write_binary, write_close, write_text,
};

fn sample_request() -> Vec<u8> {
    b"GET /ctmonitor HTTP/1.1\r\nHost: x\r\nUpgrade: websocket\r\nConnection: Upgrade\r\nSec-WebSocket-Key: dGhlIHNhbXBsZSBub25jZQ==\r\n\r\n"
        .to_vec()
}

#[test]
fn upgrade_request_yields_sample_accept_key() {
    let path = b"/ctmonitor".to_vec();
    let key = parse_upgrade_key(&sample_request(), &path).unwrap();
    assert_eq!(key, b"dGhlIHNhbXBsZSBub25jZQ==".to_vec());
    let accept = compute_accept_key(&key);
    assert_eq!(accept, "s3pPLMBiTxaQ9kYGzzhZRbK+xOo=");
    let response = upgrade_response(&accept);
    let text = String::from_utf8(response).unwrap();
    assert!(text.starts_with("HTTP/1.1 101 Switching Protocols\r\n"));
    assert!(text.contains("Upgrade: websocket\r\n"));
    assert!(text.contains("Connection: Upgrade\r\n"));
    assert!(text.contains("Sec-Websocket-Accept: s3pPLMBiTxaQ9kYGzzhZRbK+xOo=\r\n"));
    assert!(text.ends_with("\r\n\r\n"));
}

#[test]
fn wrong_path_is_refused() {
    let path = b"/other".to_vec();
    assert!(parse_upgrade_key(&sample_request(), &path).is_none());
    assert_eq!(bad_request_response(), b"HTTP/1.1 400 Bad Request".to_vec());
}

#[test]
fn missing_key_header_is_refused() {
    let req = b"GET /ctmonitor HTTP/1.1\r\nHost: x\r\nUpgrade: websocket\r\n\r\n".to_vec();
    let path = b"/ctmonitor".to_vec();
    assert!(parse_upgrade_key(&req, &path).is_none());
}

#[test]
fn request_without_upgrade_headers_is_refused() {
    let req = b"GET /ctmonitor HTTP/1.1\r\nHost: x\r\n\r\n".to_vec();
    let path = b"/ctmonitor".to_vec();
    assert!(parse_upgrade_key(&req, &path).is_none());
}

#[test]
fn small_payload_uses_seven_bit_length() {
    let payload: Vec<u8> = (0u8..10).collect();
    let frame = write_binary(&payload);
    assert_eq!(frame[0], 0x82);
    assert_eq!(frame[1], 0x0A);
    assert_eq!(&frame[2..], &payload[..]);
    assert_eq!(frame.len(), 12);
}

#[test]
fn medium_payload_uses_sixteen_bit_length() {
    let payload = vec![7u8; 300];
    let frame = write_binary(&payload);
    assert_eq!(frame[0], 0x82);
    assert_eq!(frame[1], 126);
    assert_eq!(frame[2], 0x01);
    assert_eq!(frame[3], 0x2C);
    assert_eq!(&frame[4..], &payload[..]);
}

#[test]
fn large_payload_uses_sixty_four_bit_length() {
    let payload = vec![1u8; 70_000];
    let frame = write_binary(&payload);
    assert_eq!(frame[0], 0x82);
    assert_eq!(frame[1], 127);
    assert_eq!(&frame[2..10], &[0, 0, 0, 0, 0, 1, 0x11, 0x70]);
    assert_eq!(&frame[10..], &payload[..]);
}

#[test]
fn text_frame_uses_text_opcode() {
    let payload = b"hi".to_vec();
    let frame = write_text(&payload);
    assert_eq!(frame, vec![0x81, 2, 0x68, 0x69]);
}

#[test]
fn close_frame_carries_status_big_endian() {
    let frame = write_close(1000);
    assert_eq!(frame, vec![0x88, 2, 0x03, 0xE8]);
    assert!(is_close_frame(0x88));
    assert!(is_close_frame(0x08));
    assert!(!is_close_frame(0x82));
    assert!(!is_close_frame(0x81));
}
