use ctmonitor::byte_codec::{push_u16_be, push_u32_be};
use ctmonitor::ctm::CTM;
use ctmonitor::events::{broadcast_is_for, BrokerEvent, CTIEvent, ClientId};
use ctmonitor::message_type::MessageType;

#[test]
fn broadcasts_reach_everyone_targeted_ones_only_their_addressee() {
    let me = ClientId(1);
    let other = ClientId(2);
    assert!(broadcast_is_for(&None, me));
    assert!(broadcast_is_for(&Some(me), me));
    assert!(!broadcast_is_for(&Some(other), me));
}

fn message(code: u32, body: &[u8]) -> Vec<u8> {
    let mut out: Vec<u8> = Vec::new();
    push_u32_be(&mut out, body.len() as u32);
    push_u32_be(&mut out, code);
    out.extend_from_slice(body);
    out
}

fn received(code: u32, data: Vec<u8>) -> CTIEvent {
    CTIEvent::Received {
        cti_server_host: "localhost".to_string(),
        message_type: MessageType::from_code(code),
        data,
    }
}

#[test]
fn error_flips_active_side_and_asks_for_failover() {
    let mut ctm = CTM::new();
    assert!(ctm.is_active());
    let outcome = ctm.handle_cti_event(
        &CTIEvent::Error {
            cti_server_host: "localhost".to_string(),
            error_cause: "read failed".to_string(),
        },
        0,
    );
    assert!(outcome.failover);
    assert!(!outcome.protocol_violation);
    assert_eq!(outcome.events.len(), 0);
    assert!(!ctm.is_active());
    let outcome = ctm.handle_cti_event(
        &CTIEvent::Error {
            cti_server_host: "localhost".to_string(),
            error_cause: "connect timed out".to_string(),
        },
        0,
    );
    assert!(outcome.failover);
    assert!(ctm.is_active(), "a second failover toggles back to side A");
}

#[test]
fn heartbeat_request_still_published_after_failover() {
    let mut ctm = CTM::new();
    let outcome = ctm.handle_cti_event(&CTIEvent::TimeToHeartBeat, 0);
    assert_eq!(outcome.events.len(), 1);
    assert!(matches!(outcome.events[0], BrokerEvent::RequestHeartbeatReq));
    ctm.handle_cti_event(
        &CTIEvent::Error {
            cti_server_host: "localhost".to_string(),
            error_cause: "gone".to_string(),
        },
        0,
    );
    let outcome = ctm.handle_cti_event(&CTIEvent::TimeToHeartBeat, 0);
    assert_eq!(outcome.events.len(), 1);
    assert!(matches!(outcome.events[0], BrokerEvent::RequestHeartbeatReq));
    assert!(!outcome.failover);
}

#[test]
fn open_conf_is_consumed_without_projection_events() {
    let mut body: Vec<u8> = Vec::new();
    for _ in 0..5 {
        push_u32_be(&mut body, 1);
    }
    push_u16_be(&mut body, 1);
    push_u16_be(&mut body, 17);
    push_u16_be(&mut body, 0);
    push_u32_be(&mut body, 0);
    push_u16_be(&mut body, 0);
    let bytes = message(4, &body);
    let mut ctm = CTM::new();
    let outcome = ctm.handle_cti_event(&received(4, bytes), 0);
    assert!(!outcome.failover);
    assert!(!outcome.protocol_violation);
    assert_eq!(outcome.events.len(), 0);
}

#[test]
fn truncated_message_is_a_protocol_violation() {
    let mut ctm = CTM::new();
    let outcome = ctm.handle_cti_event(&received(30, vec![0, 0, 0, 1, 0, 0, 0, 30, 5]), 0);
    assert!(outcome.protocol_violation);
    assert!(!outcome.failover);
    assert_eq!(outcome.events.len(), 0);
}

#[test]
fn string_field_without_nul_is_a_protocol_violation() {
    // An AGENT_TEAM_CONFIG_EVENT whose team-name body has no terminator.
    let mut body: Vec<u8> = Vec::new();
    push_u32_be(&mut body, 5000);
    push_u32_be(&mut body, 7);
    push_u16_be(&mut body, 1);
    push_u16_be(&mut body, 0);
    push_u32_be(&mut body, 0);
    push_u16_be(&mut body, 244);
    push_u16_be(&mut body, 2);
    body.extend_from_slice(&[0x61, 0x61]);
    let bytes = message(243, &body);
    let mut ctm = CTM::new();
    let outcome = ctm.handle_cti_event(&received(243, bytes), 0);
    assert!(outcome.protocol_violation);
}

#[test]
fn unhandled_message_types_are_ignored() {
    let mut ctm = CTM::new();
    let outcome = ctm.handle_cti_event(&received(6, message(6, &[])), 0);
    assert!(!outcome.failover);
    assert!(!outcome.protocol_violation);
    assert_eq!(outcome.events.len(), 0);
}

#[test]
fn team_config_from_raw_bytes_reaches_the_projection() {
    // Header and fixed prefix, then team name and one full agent group.
    let t: u64 = 1_700_000_000;
    let mut body: Vec<u8> = Vec::new();
    push_u32_be(&mut body, 5000);
    push_u32_be(&mut body, 7);
    push_u16_be(&mut body, 1);
    push_u16_be(&mut body, 0);
    push_u32_be(&mut body, 0);
    // agent_team_name "team"
    push_u16_be(&mut body, 244);
    push_u16_be(&mut body, 5);
    body.extend_from_slice(&[0x74, 0x65, 0x61, 0x6D, 0x00]);
    // ATC agent id "1001"
    push_u16_be(&mut body, 245);
    push_u16_be(&mut body, 5);
    body.extend_from_slice(&[0x31, 0x30, 0x30, 0x31, 0x00]);
    // agent flags
    push_u16_be(&mut body, 246);
    push_u16_be(&mut body, 2);
    push_u16_be(&mut body, 0);
    // ATC agent state 3
    push_u16_be(&mut body, 248);
    push_u16_be(&mut body, 2);
    push_u16_be(&mut body, 3);
    // ATC state duration 30
    push_u16_be(&mut body, 249);
    push_u16_be(&mut body, 4);
    push_u32_be(&mut body, 30);
    let bytes = message(243, &body);
    let mut ctm = CTM::new();
    let outcome = ctm.handle_cti_event(&received(243, bytes), t);
    assert!(!outcome.protocol_violation);
    assert_eq!(outcome.events.len(), 2);
    match &outcome.events[1] {
        BrokerEvent::BroadcastAgentState { agent_info, .. } => {
            assert_eq!(agent_info.agent_id(), "1001");
            assert_eq!(agent_info.agent_state(), 3);
            assert_eq!(agent_info.state_duration(), t - 30);
        }
        other => panic!("expected a broadcast, got {:?}", other),
    }
}

#[test]
fn agent_state_event_from_raw_bytes_reaches_the_projection() {
    let t: u64 = 1_700_000_000;
    // First make agent 1001 known.
    let mut ctm = CTM::new();
    let mut roster: Vec<u8> = Vec::new();
    push_u32_be(&mut roster, 5000);
    push_u32_be(&mut roster, 7);
    push_u16_be(&mut roster, 1);
    push_u16_be(&mut roster, 0);
    push_u32_be(&mut roster, 0);
    push_u16_be(&mut roster, 245);
    push_u16_be(&mut roster, 5);
    roster.extend_from_slice(&[0x31, 0x30, 0x30, 0x31, 0x00]);
    push_u16_be(&mut roster, 248);
    push_u16_be(&mut roster, 2);
    push_u16_be(&mut roster, 3);
    push_u16_be(&mut roster, 249);
    push_u16_be(&mut roster, 4);
    push_u32_be(&mut roster, 0);
    let outcome = ctm.handle_cti_event(&received(243, message(243, &roster)), t);
    assert!(!outcome.protocol_violation);
    // Now the state event: fixed prefix, then agent id, extension, direction.
    let mut body: Vec<u8> = Vec::new();
    push_u32_be(&mut body, 0); // monitor_id
    push_u32_be(&mut body, 5000); // peripheral_id
    push_u32_be(&mut body, 0); // session_id
    push_u16_be(&mut body, 17); // peripheral_type
    push_u16_be(&mut body, 0); // skill_group_state
    push_u32_be(&mut body, 60); // state_duration
    push_u32_be(&mut body, 0); // skill_group_number
    push_u32_be(&mut body, 77); // skill_group_id
    push_u16_be(&mut body, 0); // skill_group_priority
    push_u16_be(&mut body, 4); // agent_state
    push_u16_be(&mut body, 9); // event_reason_code
    push_u32_be(&mut body, 0); // mrd_id
    push_u32_be(&mut body, 0); // num_tasks
    push_u16_be(&mut body, 0); // agent_mode
    push_u32_be(&mut body, 0); // max_task_limit
    push_u32_be(&mut body, 42); // icm_agent_id
    push_u32_be(&mut body, 0); // agent_availability_status
    push_u16_be(&mut body, 0); // num_flt_skill_groups
    push_u32_be(&mut body, 0); // department_id
    // agent id "1001"
    push_u16_be(&mut body, 5);
    push_u16_be(&mut body, 5);
    body.extend_from_slice(&[0x31, 0x30, 0x30, 0x31, 0x00]);
    // agent extension "2001"
    push_u16_be(&mut body, 4);
    push_u16_be(&mut body, 5);
    body.extend_from_slice(&[0x32, 0x30, 0x30, 0x31, 0x00]);
    // direction 2
    push_u16_be(&mut body, 232);
    push_u16_be(&mut body, 4);
    push_u32_be(&mut body, 2);
    // an unknown tag that must be skipped
    push_u16_be(&mut body, 999);
    push_u16_be(&mut body, 3);
    body.extend_from_slice(&[1, 2, 3]);
    // a zero-length placeholder that must be consumed
    push_u16_be(&mut body, 151);
    push_u16_be(&mut body, 0);
    let outcome = ctm.handle_cti_event(&received(30, message(30, &body)), t);
    assert!(!outcome.protocol_violation);
    assert_eq!(outcome.events.len(), 1);
    match &outcome.events[0] {
        BrokerEvent::BroadcastAgentState { agent_info, .. } => {
            assert_eq!(agent_info.agent_state(), 4);
            assert_eq!(agent_info.skill_group_id(), 77);
            assert_eq!(agent_info.reason_code(), 0);
            assert_eq!(agent_info.direction(), 2);
            assert_eq!(agent_info.agent_extension(), "2001");
            assert_eq!(agent_info.state_duration(), t - 60);
            assert_eq!(agent_info.icm_agent_id(), 42);
        }
        other => panic!("expected a broadcast, got {:?}", other),
    }
}
