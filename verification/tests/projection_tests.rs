use ctmonitor::agent_state_event::AgentStateEvent;
use ctmonitor::agent_team_config_event::{AgentTeamConfigEvent, AgentTeamConfigEventAgent};
use ctmonitor::ctm::CTM;
use ctmonitor::events::{BrokerEvent, ClientEvent, ClientId};
use ctmonitor::floating_field::FloatingField;
use ctmonitor::message_type::MessageType;
use ctmonitor::mhdr::MHDR;
use ctmonitor::query_agent_state_conf::QueryAgentStateConf;
use ctmonitor::tag_value::TagValue;

fn str_field(tag: TagValue, s: &str) -> Option<FloatingField<String>> {
    Some(FloatingField { tag, length: (s.len() + 1) as u16, data: s.to_string() })
}

fn team_config_with_one_agent(agent_id: &str, state: u16, duration: u32) -> AgentTeamConfigEvent {
    AgentTeamConfigEvent {
        mhdr: MHDR { length: 0, message_type: MessageType::AGENT_TEAM_CONFIG_EVENT },
        peripheral_id: 5000,
        team_id: 7,
        number_of_agents: 1,
        config_operation: 0,
        department_id: -1,
        agent_team_name: str_field(TagValue::AGENT_TEAM_NAME_TAG, "team"),
        agents: vec![AgentTeamConfigEventAgent {
            agent_id: str_field(TagValue::ATC_AGENT_ID_TAG, agent_id),
            agent_flags: Some(FloatingField {
                tag: TagValue::AGENT_FLAGS_TAG,
                length: 2,
                data: 0,
            }),
            agent_state: Some(FloatingField {
                tag: TagValue::ATC_AGENT_STATE_TAG,
                length: 2,
                data: state,
            }),
            state_duration: Some(FloatingField {
                tag: TagValue::ATC_AGENT_STATE_DURATION_TAG,
                length: 4,
                data: duration,
            }),
        }],
    }
}

fn agent_state_event(
    agent_id: &str,
    state: u16,
    skill_group_id: u32,
    reason: u16,
    direction: u32,
    extension: &str,
    duration: u32,
) -> AgentStateEvent {
    AgentStateEvent {
        mhdr: MHDR { length: 0, message_type: MessageType::AGENT_STATE_EVENT },
        monitor_id: 0,
        peripheral_id: 5000,
        session_id: 0,
        peripheral_type: 17,
        skill_group_state: 0,
        state_duration: duration,
        skill_group_number: 0,
        skill_group_id,
        skill_group_priority: 0,
        agent_state: state,
        event_reason_code: reason,
        mrd_id: 0,
        num_tasks: 0,
        agent_mode: 0,
        max_task_limit: 0,
        icm_agent_id: 42,
        agent_availability_status: 0,
        num_flt_skill_groups: 0,
        department_id: -1,
        cti_client_signature: None,
        agent_id: str_field(TagValue::AGENT_ID_TAG, agent_id),
        agent_extension: str_field(TagValue::AGENT_EXTENSION_TAG, extension),
        active_terminal: None,
        agent_instrument: None,
        duration: None,
        next_agent_state: None,
        direction: Some(FloatingField { tag: TagValue::DIRECTION_TAG, length: 4, data: direction }),
        flt_skill_group_number: None,
        flt_skill_group_id: None,
        flt_skill_group_priority: None,
        flt_skill_group_state: None,
        max_beyond_task_limit: None,
    }
}

#[test]
fn team_config_queries_creates_and_broadcasts() {
    // One roster record at wall-clock T: expect a state query upstream and a
    // broadcast of the fresh entry with state_duration T - 30.
    let t: u64 = 1_700_000_000;
    let mut ctm = CTM::new();
    let ev = team_config_with_one_agent("1001", 3, 30);
    let events = ctm.handle_team_config(&ev, t);
    assert_eq!(events.len(), 2);
    match &events[0] {
        BrokerEvent::RequestAgentStateEvent { peripheral_id, agent_id } => {
            assert_eq!(*peripheral_id, 5000);
            assert_eq!(agent_id, "1001");
        }
        other => panic!("expected a state query, got {:?}", other),
    }
    match &events[1] {
        BrokerEvent::BroadcastAgentState { client_id, agent_info } => {
            assert!(client_id.is_none());
            assert_eq!(agent_info.agent_id(), "1001");
            assert_eq!(agent_info.agent_state(), 3);
            assert_eq!(agent_info.state_duration(), t - 30);
            assert_eq!(agent_info.reason_code(), 0);
            assert_eq!(agent_info.skill_group_id(), 0);
            assert_eq!(agent_info.direction(), 0);
            assert_eq!(agent_info.agent_extension(), "");
        }
        other => panic!("expected a broadcast, got {:?}", other),
    }
    let stored = ctm.get_agent_info(&"1001".to_string()).unwrap();
    assert_eq!(stored.agent_state(), 3);
}

#[test]
fn agent_goes_on_call_retains_skill_and_direction_clears_reason() {
    let t: u64 = 1_700_000_000;
    let mut ctm = CTM::new();
    ctm.handle_team_config(&team_config_with_one_agent("1001", 3, 30), t - 5);
    let ev = agent_state_event("1001", 4, 77, 9, 2, "2001", 0);
    let events = ctm.handle_agent_state_event(&ev, t);
    assert_eq!(events.len(), 1);
    match &events[0] {
        BrokerEvent::BroadcastAgentState { client_id, agent_info } => {
            assert!(client_id.is_none());
            assert_eq!(agent_info.agent_state(), 4);
            assert_eq!(agent_info.skill_group_id(), 77);
            assert_eq!(agent_info.direction(), 2);
            assert_eq!(agent_info.reason_code(), 0);
            assert_eq!(agent_info.agent_extension(), "2001");
            assert_eq!(agent_info.state_duration(), t);
            assert_eq!(agent_info.icm_agent_id(), 42);
        }
        other => panic!("expected a broadcast, got {:?}", other),
    }
}

#[test]
fn agent_logs_out_retains_reason_clears_extension() {
    let t: u64 = 1_700_000_000;
    let mut ctm = CTM::new();
    ctm.handle_team_config(&team_config_with_one_agent("1001", 4, 0), t);
    let ev = agent_state_event("1001", 1, 0, 32767, 0, "2001", 10);
    let events = ctm.handle_agent_state_event(&ev, t);
    assert_eq!(events.len(), 1);
    match &events[0] {
        BrokerEvent::BroadcastAgentState { agent_info, .. } => {
            assert_eq!(agent_info.agent_state(), 1);
            assert_eq!(agent_info.reason_code(), 32767);
            assert_eq!(agent_info.agent_extension(), "");
            assert_eq!(agent_info.skill_group_id(), 0);
            assert_eq!(agent_info.direction(), 0);
        }
        other => panic!("expected a broadcast, got {:?}", other),
    }
}

#[test]
fn retention_invariants_hold_after_every_state_event() {
    let t: u64 = 1_700_000_000;
    let mut ctm = CTM::new();
    ctm.handle_team_config(&team_config_with_one_agent("1001", 3, 0), t);
    for state in [1u16, 2, 3, 4, 7, 8, 9, 10, 11] {
        let ev = agent_state_event("1001", state, 77, 5, 2, "2001", 0);
        let events = ctm.handle_agent_state_event(&ev, t);
        match &events[0] {
            BrokerEvent::BroadcastAgentState { agent_info, .. } => {
                if !(state == 1 || state == 2) {
                    assert_eq!(agent_info.reason_code(), 0);
                }
                if !(state == 4 || state == 10) {
                    assert_eq!(agent_info.skill_group_id(), 0);
                }
                if !(state == 4 || state == 7 || state == 8 || state == 10) {
                    assert_eq!(agent_info.direction(), 0);
                }
                if state == 1 || state == 9 {
                    assert_eq!(agent_info.agent_extension(), "");
                }
            }
            other => panic!("expected a broadcast, got {:?}", other),
        }
    }
}

#[test]
fn state_event_for_unknown_agent_is_dropped() {
    let mut ctm = CTM::new();
    let ev = agent_state_event("2002", 4, 1, 0, 1, "x", 0);
    let events = ctm.handle_agent_state_event(&ev, 100);
    assert_eq!(events.len(), 0);
    assert!(ctm.get_agent_info(&"2002".to_string()).is_none());
}

#[test]
fn query_conf_updates_known_agent() {
    let t: u64 = 1_700_000_000;
    let mut ctm = CTM::new();
    ctm.handle_team_config(&team_config_with_one_agent("1001", 3, 0), t);
    let ev = QueryAgentStateConf {
        mhdr: MHDR { length: 0, message_type: MessageType::QUERY_AGENT_STATE_CONF },
        invoke_id: 2,
        agent_state: 4,
        num_skill_groups: 1,
        mrd_id: 0,
        num_task: 0,
        agent_mode: 0,
        max_task_limit: 0,
        icm_agent_id: 7,
        agent_availability_status: 0,
        department_id: 0,
        agent_id: str_field(TagValue::AGENT_ID_TAG, "1001"),
        agent_extension: str_field(TagValue::AGENT_EXTENSION_TAG, "2001"),
        agent_instrument: None,
        skill_group_number: None,
        skill_group_id: Some(FloatingField {
            tag: TagValue::SKILL_GROUP_ID_TAG,
            length: 4,
            data: 0x0001_0005,
        }),
        skill_group_priority: None,
        skill_group_state: None,
        internal_agent_state: None,
        max_beyond_task_limit: None,
    };
    let events = ctm.handle_query_agent_state_conf(&ev);
    assert_eq!(events.len(), 1);
    match &events[0] {
        BrokerEvent::BroadcastAgentState { agent_info, .. } => {
            assert_eq!(agent_info.agent_state(), 4);
            // The 32-bit wire value is truncated to 16 bits.
            assert_eq!(agent_info.skill_group_id(), 5);
            assert_eq!(agent_info.icm_agent_id(), 7);
            assert_eq!(agent_info.agent_extension(), "2001");
        }
        other => panic!("expected a broadcast, got {:?}", other),
    }
}

#[test]
fn connect_replays_one_snapshot_per_agent_to_that_client_only() {
    let t: u64 = 1_700_000_000;
    let mut ctm = CTM::new();
    ctm.handle_team_config(&team_config_with_one_agent("1001", 3, 0), t);
    ctm.handle_team_config(&team_config_with_one_agent("1002", 4, 0), t);
    let client = ClientId(77);
    let events = ctm.handle_client_event(&ClientEvent::Connect { id: client });
    assert_eq!(events.len(), 2);
    let mut seen: Vec<String> = Vec::new();
    for e in &events {
        match e {
            BrokerEvent::BroadcastAgentState { client_id, agent_info } => {
                assert_eq!(*client_id, Some(client));
                seen.push(agent_info.agent_id().clone());
            }
            other => panic!("expected a broadcast, got {:?}", other),
        }
    }
    assert_eq!(seen, vec!["1001".to_string(), "1002".to_string()]);
    let none = ctm.handle_client_event(&ClientEvent::Disconnect { id: client });
    assert_eq!(none.len(), 0);
    let none = ctm.handle_client_event(&ClientEvent::Receive { id: client, data: vec![1] });
    assert_eq!(none.len(), 0);
}

#[test]
fn existing_agent_updated_by_second_team_config() {
    let t: u64 = 1_700_000_000;
    let mut ctm = CTM::new();
    ctm.handle_team_config(&team_config_with_one_agent("1001", 3, 30), t);
    let events = ctm.handle_team_config(&team_config_with_one_agent("1001", 2, 5), t + 100);
    assert_eq!(events.len(), 2);
    match &events[1] {
        BrokerEvent::BroadcastAgentState { agent_info, .. } => {
            assert_eq!(agent_info.agent_state(), 2);
            assert_eq!(agent_info.state_duration(), t + 95);
        }
        other => panic!("expected a broadcast, got {:?}", other),
    }
    let connect = ctm.handle_client_event(&ClientEvent::Connect { id: ClientId(1) });
    assert_eq!(connect.len(), 1, "the map must still hold a single entry");
}
