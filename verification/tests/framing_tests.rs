use ctmonitor::byte_codec::{push_u16_be, push_u32_be};
use ctmonitor::message_type::MessageType;
use ctmonitor::reassembly::Reassembler;

fn message(code: u32, body: &[u8]) -> Vec<u8> {
    let mut out: Vec<u8> = Vec::new();
    push_u32_be(&mut out, body.len() as u32);
    push_u32_be(&mut out, code);
    out.extend_from_slice(body);
    out
}

#[test]
fn two_messages_in_one_read_yield_both_in_order() {
    let m1 = message(4, &[0xAA, 0xBB, 0xCC, 0xDD]);
    let m2 = message(30, &[0x01, 0x02]);
    let mut combined = m1.clone();
    combined.extend_from_slice(&m2);
    let mut r = Reassembler::new();
    let frames = r.push(&combined);
    assert_eq!(frames.len(), 2);
    assert_eq!(frames[0].message_type, MessageType::OPEN_CONF);
    assert_eq!(frames[0].data, m1);
    assert_eq!(frames[1].message_type, MessageType::AGENT_STATE_EVENT);
    assert_eq!(frames[1].data, m2);
    let more = r.push(&Vec::new());
    assert_eq!(more.len(), 0);
}

#[test]
fn message_split_across_reads_is_emitted_once() {
    let m = message(4, &[1, 2, 3, 4, 5, 6, 7]);
    for k in 1..m.len() {
        let mut r = Reassembler::new();
        let first = r.push(&m[0..k].to_vec());
        assert_eq!(first.len(), 0, "no frame may be emitted after {} bytes", k);
        let second = r.push(&m[k..].to_vec());
        assert_eq!(second.len(), 1);
        assert_eq!(second[0].data, m);
    }
}

#[test]
fn three_reads_then_rest_of_next_message() {
    let m1 = message(5, &[9]);
    let m2 = message(6, &[8, 7]);
    let mut r = Reassembler::new();
    assert_eq!(r.push(&m1[0..3].to_vec()).len(), 0);
    assert_eq!(r.push(&m1[3..8].to_vec()).len(), 0);
    let mut tail = m1[8..].to_vec();
    tail.extend_from_slice(&m2);
    let frames = r.push(&tail);
    assert_eq!(frames.len(), 2);
    assert_eq!(frames[0].data, m1);
    assert_eq!(frames[1].data, m2);
}

#[test]
fn fragmented_open_conf_then_agent_state_event() {
    // A whole OPEN_CONF followed by the first 4 bytes of an
    // AGENT_STATE_EVENT, then the remainder: exactly one frame each.
    let mut open_conf_body: Vec<u8> = Vec::new();
    for _ in 0..5 {
        push_u32_be(&mut open_conf_body, 0);
    }
    push_u16_be(&mut open_conf_body, 1);
    push_u16_be(&mut open_conf_body, 0);
    push_u16_be(&mut open_conf_body, 0);
    push_u32_be(&mut open_conf_body, 0);
    push_u16_be(&mut open_conf_body, 0);
    let open_conf = message(4, &open_conf_body);
    let ase = message(30, &[0u8; 62]);
    let mut first_read = open_conf.clone();
    first_read.extend_from_slice(&ase[0..4]);
    let mut r = Reassembler::new();
    let frames = r.push(&first_read);
    assert_eq!(frames.len(), 1);
    assert_eq!(frames[0].message_type, MessageType::OPEN_CONF);
    assert_eq!(frames[0].data, open_conf);
    let frames = r.push(&ase[4..].to_vec());
    assert_eq!(frames.len(), 1);
    assert_eq!(frames[0].message_type, MessageType::AGENT_STATE_EVENT);
    assert_eq!(frames[0].data, ase);
}
