use ctmonitor::byte_codec::{push_u16_be, push_u32_be, read_u16_be, read_u32_be, parse_cstr_body};
use ctmonitor::floating_field::FloatingField;
use ctmonitor::mhdr::MHDR;
use ctmonitor::tag_value::TagValue;
use ctmonitor::cti_client::CTIClient;
use ctmonitor::deserializable::Deserializable;
use ctmonitor::heartbeat_req::HeartBeatReq;
use ctmonitor::message_type::MessageType;
use ctmonitor::open_req::OpenReq;
use ctmonitor::query_agent_state_req::QueryAgentStateReq;
use ctmonitor::serializable::Serializable;

#[test]
fn u32_encode_is_big_endian() {
    let mut out: Vec<u8> = Vec::new();
    push_u32_be(&mut out, 0x01020304);
    assert_eq!(out, vec![0x01, 0x02, 0x03, 0x04]);
    assert_eq!(read_u32_be(&out, 0), 0x01020304);
}

#[test]
fn u16_encode_is_big_endian() {
    let mut out: Vec<u8> = Vec::new();
    push_u16_be(&mut out, 0x0102);
    assert_eq!(out, vec![0x01, 0x02]);
    assert_eq!(read_u16_be(&out, 0), 0x0102);
}

#[test]
fn i32_encode_is_twos_complement_big_endian() {
    let v: i32 = -2;
    let bytes = v.serialize();
    assert_eq!(bytes, vec![0xFF, 0xFF, 0xFF, 0xFE]);
    let w: i16 = -2;
    assert_eq!(w.serialize(), vec![0xFF, 0xFE]);
}

#[test]
fn open_req_numeric_floating_fields_round_trip() {
    let mut session = CTIClient::new(true);
    let mut m = session.make_open_req(5000, "ctmonitor_rs".to_string(), "pw".to_string());
    m.application_path_id = Some(FloatingField {
        tag: TagValue::APPLICATION_PATH_ID_TAG,
        length: 4,
        data: -7,
    });
    // Eight more body bytes for the added field.
    m.mhdr = MHDR { length: m.mhdr.length + 8, message_type: m.mhdr.message_type };
    let expected_length = m.mhdr.length;
    let bytes = m.serialize();
    let (rest, back) = OpenReq::deserialize(&bytes).unwrap();
    assert!(rest.is_empty());
    assert_eq!(back.application_path_id.as_ref().unwrap().data, -7);
    assert_eq!(back.mhdr.length, expected_length);
    assert!(back.unique_instance_id.is_none());
}

#[test]
fn string_encode_appends_nul() {
    let bytes = String::from("abc").serialize();
    assert_eq!(bytes, vec![0x61, 0x62, 0x63, 0x00]);
}

#[test]
fn string_decode_stops_at_first_nul() {
    // Bytes after the NUL within the declared body are discarded.
    let body = vec![0x61, 0x62, 0x63, 0x00, 0xFF, 0xFF];
    let s = parse_cstr_body(body).unwrap();
    assert_eq!(s, "abc");
}

#[test]
fn string_decode_without_nul_is_malformed() {
    assert!(parse_cstr_body(vec![0x61, 0x62, 0x63]).is_none());
}

#[test]
fn heartbeat_req_bytes_and_round_trip() {
    let mut session = CTIClient::new(true);
    let m = session.make_heartbeat_req();
    let bytes = m.serialize();
    assert_eq!(bytes, vec![0, 0, 0, 4, 0, 0, 0, 5, 0, 0, 0, 1]);
    let (rest, back) = HeartBeatReq::deserialize(&bytes).unwrap();
    assert!(rest.is_empty());
    assert_eq!(back.invoke_id, 1);
    assert_eq!(back.mhdr.length, 4);
    assert_eq!(back.mhdr.message_type, MessageType::HEARTBEAT_REQ);
}

#[test]
fn invoke_id_starts_at_one_and_increments() {
    let mut session = CTIClient::new(true);
    assert_eq!(session.make_heartbeat_req().invoke_id, 1);
    assert_eq!(session.make_heartbeat_req().invoke_id, 2);
    assert_eq!(session.make_heartbeat_req().invoke_id, 3);
}

#[test]
fn open_req_documented_values_round_trip() {
    let mut session = CTIClient::new(true);
    let m = session.make_open_req(5000, "ctmonitor_rs".to_string(), "SomePassword!!".to_string());
    assert_eq!(m.invoke_id, 1);
    assert_eq!(m.version_number, 24);
    assert_eq!(m.idle_timeout, 100);
    assert_eq!(m.peripheral_id, 5000);
    assert_eq!(m.services_requested, 0x8000_0094);
    assert_eq!(m.call_msg_mask, 0xFFFF_FFFF);
    assert_eq!(m.agent_state_mask, 0x3FFF);
    assert_eq!(m.config_msg_mask, 0);
    let bytes = m.serialize();
    // Header: body length, then the OPEN_REQ code.
    assert_eq!(&bytes[4..8], &[0, 0, 0, 3]);
    // version_number sits after the header and invoke id.
    assert_eq!(&bytes[12..16], &[0, 0, 0, 24]);
    assert_eq!(&bytes[24..28], &[0x80, 0, 0, 0x94]);
    assert_eq!(&bytes[28..32], &[0xFF, 0xFF, 0xFF, 0xFF]);
    assert_eq!(&bytes[32..36], &[0, 0, 0x3F, 0xFF]);
    let (rest, back) = OpenReq::deserialize(&bytes).unwrap();
    assert!(rest.is_empty());
    assert_eq!(back.invoke_id, 1);
    assert_eq!(back.version_number, 24);
    assert_eq!(back.client_id.as_ref().unwrap().data, "ctmonitor_rs");
    assert_eq!(back.client_password.as_ref().unwrap().data, "SomePassword!!");
    assert!(back.client_signature.is_none());
    assert!(back.agent_id.is_none());
}

#[test]
fn query_agent_state_req_round_trip() {
    let mut session = CTIClient::new(true);
    let m = session.make_query_agent_state_req(5000, "1001".to_string());
    let bytes = m.serialize();
    let (rest, back) = QueryAgentStateReq::deserialize(&bytes).unwrap();
    assert!(rest.is_empty());
    assert_eq!(back.invoke_id, 1);
    assert_eq!(back.peripheral_id, 5000);
    assert_eq!(back.mrd_id, 0);
    assert_eq!(back.icm_agent_id, 0);
    assert_eq!(back.agent_id.as_ref().unwrap().data, "1001");
    assert!(back.agent_extension.is_none());
    assert!(back.agent_instrument.is_none());
}

#[test]
fn unknown_message_type_is_kept_raw() {
    let mt = MessageType::from_code(9999);
    assert_eq!(mt, MessageType::Unknown(9999));
    assert_eq!(mt.code(), 9999);
    assert_eq!(MessageType::from_code(3), MessageType::OPEN_REQ);
    assert_eq!(MessageType::OPEN_CONF.code(), 4);
}

#[test]
fn truncated_message_decode_is_malformed() {
    assert!(OpenReq::deserialize(&vec![0u8; 10]).is_none());
    assert!(QueryAgentStateReq::deserialize(&vec![0u8; 4]).is_none());
    assert!(HeartBeatReq::deserialize(&vec![0u8; 11]).is_none());
}
