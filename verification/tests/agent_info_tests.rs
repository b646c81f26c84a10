use ctmonitor::agent_info::AgentInfo;
use ctmonitor::byte_codec::parse_cstr_body;

#[test]
fn new_agent_info_is_all_zero() {
    let a = AgentInfo::new("1001".to_string());
    assert_eq!(a.agent_id(), "1001");
    assert_eq!(a.icm_agent_id(), 0);
    assert_eq!(a.agent_state(), 0);
    assert_eq!(a.state_duration(), 0);
    assert_eq!(a.reason_code(), 0);
    assert_eq!(a.skill_group_id(), 0);
    assert_eq!(a.direction(), 0);
    assert_eq!(a.agent_extension(), "");
}

#[test]
fn reason_code_kept_only_in_logout_and_not_ready() {
    let mut a = AgentInfo::new("1".to_string());
    a.set_agent_state(2);
    a.set_reason_code(5);
    assert_eq!(a.reason_code(), 5);
    a.set_agent_state(3);
    a.set_reason_code(5);
    assert_eq!(a.reason_code(), 0);
    a.set_agent_state(1);
    a.set_reason_code(7);
    assert_eq!(a.reason_code(), 7);
}

#[test]
fn skill_group_kept_only_in_talking_and_hold() {
    let mut a = AgentInfo::new("1".to_string());
    a.set_agent_state(4);
    a.set_skill_group_id(77);
    assert_eq!(a.skill_group_id(), 77);
    a.set_agent_state(10);
    a.set_skill_group_id(78);
    assert_eq!(a.skill_group_id(), 78);
    a.set_agent_state(3);
    a.set_skill_group_id(79);
    assert_eq!(a.skill_group_id(), 0);
}

#[test]
fn direction_kept_only_in_call_states() {
    let mut a = AgentInfo::new("1".to_string());
    for state in [4u16, 7, 8, 10] {
        a.set_agent_state(state);
        a.set_direction(2);
        assert_eq!(a.direction(), 2);
    }
    a.set_agent_state(1);
    a.set_direction(2);
    assert_eq!(a.direction(), 0);
}

#[test]
fn extension_cleared_in_logout_and_unknown() {
    let mut a = AgentInfo::new("1".to_string());
    a.set_agent_state(3);
    a.set_agent_extension("2001".to_string());
    assert_eq!(a.agent_extension(), "2001");
    a.set_agent_state(9);
    a.set_agent_extension("2001".to_string());
    assert_eq!(a.agent_extension(), "");
    a.set_agent_state(1);
    a.set_agent_extension("2001".to_string());
    assert_eq!(a.agent_extension(), "");
}

#[test]
fn state_duration_is_wall_clock_start() {
    let mut a = AgentInfo::new("1".to_string());
    a.set_state_duration_at(30, 1_700_000_000);
    assert_eq!(a.state_duration(), 1_699_999_970);
    a.set_state_duration_at(50, 20);
    assert_eq!(a.state_duration(), 0, "a duration before the epoch saturates");
    a.set_icm_agent_id(-3);
    assert_eq!(a.icm_agent_id(), -3);
}

#[test]
fn multibyte_text_survives_string_decoding() {
    // A two-byte UTF-8 character before the terminator.
    let s = parse_cstr_body(vec![0xC3, 0xA9, 0x00, 0xFF]).unwrap();
    assert_eq!(s, "\u{e9}");
    // An invalid UTF-8 prefix is malformed.
    assert!(parse_cstr_body(vec![0xC3, 0x00]).is_none());
}
