use rcon_control::codec::check_packet_size;
use rcon_control::codec::classify_read_error;
use rcon_control::codec::decode_packet_body;
use rcon_control::codec::encode_packet;
use rcon_control::codec::packet_size_ok;
use rcon_control::codec::push_i32_le;
use rcon_control::codec::read_i32_le;
use rcon_control::codec::RconError;
use rcon_control::codec::RCON_TYPE_COMMAND;
use rcon_control::codec::RCON_TYPE_LOGIN;

fn decode_wire(bytes: &[u8]) -> (i32, Vec<u8>) {
    let prefix: Vec<u8> = bytes[..4].to_vec();
    let size = read_i32_le(&prefix, 0);
    let body: Vec<u8> = bytes[4..].to_vec();
    (size, body)
}

#[test]
fn le_round_trip() {
    let mut out: Vec<u8> = Vec::new();
    push_i32_le(&mut out, -559038737);
    push_i32_le(&mut out, 1);
    assert_eq!(read_i32_le(&out, 0), -559038737);
    assert_eq!(read_i32_le(&out, 4), 1);
}

#[test]
fn encode_layout_is_exact() {
    let bytes = encode_packet(7, RCON_TYPE_LOGIN, "hunter2");
    // size = 4 + 4 + 7 + 2 = 17, little-endian
    assert_eq!(&bytes[0..4], &[17, 0, 0, 0]);
    assert_eq!(&bytes[4..8], &[7, 0, 0, 0]);
    assert_eq!(&bytes[8..12], &[3, 0, 0, 0]);
    assert_eq!(&bytes[12..19], b"hunter2");
    assert_eq!(&bytes[19..21], &[0, 0]);
    assert_eq!(bytes.len(), 21);
}

#[test]
fn packet_round_trip() {
    let bytes = encode_packet(42, RCON_TYPE_COMMAND, "say hello");
    let (size, body) = decode_wire(&bytes);
    assert!(packet_size_ok(size));
    assert_eq!(body.len(), size as usize);
    let packet = decode_packet_body(size, &body);
    assert_eq!(packet.request_id, 42);
    assert_eq!(packet.packet_type, RCON_TYPE_COMMAND);
    assert_eq!(packet.payload, "say hello");
}

#[test]
fn packet_round_trip_empty_payload() {
    let bytes = encode_packet(1, RCON_TYPE_COMMAND, "");
    let (size, body) = decode_wire(&bytes);
    assert_eq!(size, 10);
    assert!(packet_size_ok(size));
    let packet = decode_packet_body(size, &body);
    assert_eq!(packet.request_id, 1);
    assert_eq!(packet.payload, "");
}

#[test]
fn size_nine_is_rejected() {
    assert!(!packet_size_ok(9));
    assert_eq!(check_packet_size(9), Err(RconError::InvalidResponse));
}

#[test]
fn size_4097_is_rejected() {
    assert!(!packet_size_ok(4097));
    assert_eq!(check_packet_size(4097), Err(RconError::InvalidResponse));
}

#[test]
fn size_in_range_is_accepted() {
    assert_eq!(check_packet_size(10), Ok(10));
    assert_eq!(check_packet_size(4096), Ok(4096));
}

#[test]
fn size_bounds_are_inclusive() {
    assert!(packet_size_ok(10));
    assert!(packet_size_ok(4096));
    assert!(!packet_size_ok(0));
    assert!(!packet_size_ok(-4));
}

#[test]
fn decode_strips_trailing_zeros() {
    // size | id | type | "hi\0\0\0" : the nulls beyond the two terminators
    // also disappear.
    let mut bytes: Vec<u8> = Vec::new();
    push_i32_le(&mut bytes, 13);
    push_i32_le(&mut bytes, 5);
    push_i32_le(&mut bytes, 0);
    bytes.extend_from_slice(b"hi\0\0\0");
    let (size, body) = decode_wire(&bytes);
    assert_eq!(size, 13);
    let packet = decode_packet_body(size, &body);
    assert_eq!(packet.payload, "hi");
}

#[test]
fn classify_buffer_error() {
    let e = classify_read_error(
        "failed to fill whole buffer",
        "Failed to read packet size: ",
    );
    assert!(matches!(e, RconError::BufferError(m) if m == "failed to fill whole buffer"));
}

#[test]
fn classify_connection_reset() {
    let e = classify_read_error("Connection reset by peer (os error 104)", "x: ");
    assert_eq!(e, RconError::ServerClosedConnection);
    let e = classify_read_error("Connection aborted", "x: ");
    assert_eq!(e, RconError::ServerClosedConnection);
}

#[test]
fn classify_timeout() {
    let e = classify_read_error("operation timed out", "x: ");
    assert_eq!(e, RconError::NetworkTimeout);
    let e = classify_read_error("read timeout expired", "x: ");
    assert_eq!(e, RconError::NetworkTimeout);
}

#[test]
fn classify_generic_gets_prefix() {
    let e = classify_read_error("permission denied", "Failed to read packet size: ");
    assert!(
        matches!(e, RconError::CommandFailed(m) if m == "Failed to read packet size: permission denied")
    );
}
