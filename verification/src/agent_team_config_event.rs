//! The AGENT_TEAM_CONFIG_EVENT message: the roster of one agent team, with a
//! repeating per-agent group in its floating-field trailer.  A record is
//! opened by the agent-id tag and closed by the state-duration tag; fields in
//! between key back to the most recently opened record; a group field with no
//! open record is consumed and dropped.
use vstd::prelude::*;
use crate::byte_codec::{
    i32_from_be, parse_str_body, read_i32_be, read_u16_be, read_u32_be, u16_from_be, u32_from_be,
};
use crate::deserializable::Deserializable;
use crate::floating_field::{
    decode_fields, decode_floating, opt_ff_view, FloatingApply, FloatingDecode, FloatingField,
    FloatingFieldView,
};
use crate::message_type::{spec_message_type_from_code, MessageType};
use crate::mhdr::MHDR;
use crate::tag_value::{
    TagValue, AGENT_FLAGS_TAG_CODE, AGENT_TEAM_NAME_TAG_CODE, ATC_AGENT_ID_TAG_CODE,
    ATC_AGENT_STATE_DURATION_TAG_CODE, ATC_AGENT_STATE_TAG_CODE,
};

verus! {

#[derive(Debug, Clone)]
pub struct AgentTeamConfigEventAgent {
    pub agent_id: Option<FloatingField<String>>,
    pub agent_flags: Option<FloatingField<u16>>,
    pub agent_state: Option<FloatingField<u16>>,
    pub state_duration: Option<FloatingField<u32>>,
}

/// The mathematical image of one per-agent record.
pub struct AgentTeamConfigEventAgentView {
    pub agent_id: Option<FloatingFieldView<Seq<char>>>,
    pub agent_flags: Option<FloatingFieldView<u16>>,
    pub agent_state: Option<FloatingFieldView<u16>>,
    pub state_duration: Option<FloatingFieldView<u32>>,
}

impl View for AgentTeamConfigEventAgent {
    type V = AgentTeamConfigEventAgentView;

    open spec fn view(&self) -> AgentTeamConfigEventAgentView {
        AgentTeamConfigEventAgentView {
            agent_id: opt_ff_view(self.agent_id),
            agent_flags: opt_ff_view(self.agent_flags),
            agent_state: opt_ff_view(self.agent_state),
            state_duration: opt_ff_view(self.state_duration),
        }
    }
}

#[derive(Debug, Clone)]
pub struct AgentTeamConfigEvent {
    pub mhdr: MHDR,
    pub peripheral_id: u32,
    pub team_id: u32,
    pub number_of_agents: u16,
    pub config_operation: u16,
    pub department_id: i32,
    pub agent_team_name: Option<FloatingField<String>>,
    pub agents: Vec<AgentTeamConfigEventAgent>,
}

/// The mathematical image of an AGENT_TEAM_CONFIG_EVENT.
pub struct AgentTeamConfigEventView {
    pub mhdr: MHDR,
    pub peripheral_id: u32,
    pub team_id: u32,
    pub number_of_agents: u16,
    pub config_operation: u16,
    pub department_id: i32,
    pub agent_team_name: Option<FloatingFieldView<Seq<char>>>,
    pub agents: Seq<AgentTeamConfigEventAgentView>,
}

impl View for AgentTeamConfigEvent {
    type V = AgentTeamConfigEventView;

    open spec fn view(&self) -> AgentTeamConfigEventView {
        AgentTeamConfigEventView {
            mhdr: self.mhdr,
            peripheral_id: self.peripheral_id,
            team_id: self.team_id,
            number_of_agents: self.number_of_agents,
            config_operation: self.config_operation,
            department_id: self.department_id,
            agent_team_name: opt_ff_view(self.agent_team_name),
            agents: self.agents@.map_values(|a: AgentTeamConfigEventAgent| a@),
        }
    }
}

/// Whether the last record is still open for group fields.
pub open spec fn has_open_record(agents: Seq<AgentTeamConfigEventAgentView>) -> bool {
    agents.len() > 0 && agents.last().state_duration is None
}

impl FloatingApply for AgentTeamConfigEventView {
    open spec fn apply_field(self, tag: u16, len: u16, body: Seq<u8>) -> Option<Self> {
        if tag == AGENT_TEAM_NAME_TAG_CODE {
            match parse_str_body(body) {
                None => None,
                Some(s) => Some(
                    AgentTeamConfigEventView {
                        agent_team_name: Some(
                            FloatingFieldView {
                                tag: TagValue::AGENT_TEAM_NAME_TAG,
                                length: len,
                                data: s,
                            },
                        ),
                        ..self
                    },
                ),
            }
        } else if tag == ATC_AGENT_ID_TAG_CODE {
            match parse_str_body(body) {
                None => None,
                Some(s) => Some(
                    AgentTeamConfigEventView {
                        agents: self.agents.push(
                            AgentTeamConfigEventAgentView {
                                agent_id: Some(
                                    FloatingFieldView {
                                        tag: TagValue::ATC_AGENT_ID_TAG,
                                        length: len,
                                        data: s,
                                    },
                                ),
                                agent_flags: None,
                                agent_state: None,
                                state_duration: None,
                            },
                        ),
                        ..self
                    },
                ),
            }
        } else if tag == AGENT_FLAGS_TAG_CODE {
            if body.len() < 2 {
                None
            } else if has_open_record(self.agents) {
                let i = self.agents.len() - 1;
                Some(
                    AgentTeamConfigEventView {
                        agents: self.agents.update(
                            i as int,
                            AgentTeamConfigEventAgentView {
                                agent_flags: Some(
                                    FloatingFieldView {
                                        tag: TagValue::AGENT_FLAGS_TAG,
                                        length: len,
                                        data: u16_from_be(body[0], body[1]),
                                    },
                                ),
                                ..self.agents.last()
                            },
                        ),
                        ..self
                    },
                )
            } else {
                Some(self)
            }
        } else if tag == ATC_AGENT_STATE_TAG_CODE {
            if body.len() < 2 {
                None
            } else if has_open_record(self.agents) {
                let i = self.agents.len() - 1;
                Some(
                    AgentTeamConfigEventView {
                        agents: self.agents.update(
                            i as int,
                            AgentTeamConfigEventAgentView {
                                agent_state: Some(
                                    FloatingFieldView {
                                        tag: TagValue::ATC_AGENT_STATE_TAG,
                                        length: len,
                                        data: u16_from_be(body[0], body[1]),
                                    },
                                ),
                                ..self.agents.last()
                            },
                        ),
                        ..self
                    },
                )
            } else {
                Some(self)
            }
        } else if tag == ATC_AGENT_STATE_DURATION_TAG_CODE {
            if body.len() < 4 {
                None
            } else if has_open_record(self.agents) {
                let i = self.agents.len() - 1;
                Some(
                    AgentTeamConfigEventView {
                        agents: self.agents.update(
                            i as int,
                            AgentTeamConfigEventAgentView {
                                state_duration: Some(
                                    FloatingFieldView {
                                        tag: TagValue::ATC_AGENT_STATE_DURATION_TAG,
                                        length: len,
                                        data: u32_from_be(body[0], body[1], body[2], body[3]),
                                    },
                                ),
                                ..self.agents.last()
                            },
                        ),
                        ..self
                    },
                )
            } else {
                Some(self)
            }
        } else {
            Some(self)
        }
    }
}

impl FloatingDecode for AgentTeamConfigEvent {
    fn apply_field_exec(self, tag: u16, len: u16, body: Vec<u8>) -> (r: Option<Self>) {
        let ghost pre = self@;
        if tag == AGENT_TEAM_NAME_TAG_CODE {
            match crate::byte_codec::parse_cstr_body(body) {
                None => None,
                Some(s) => Some(
                    Self {
                        agent_team_name: Some(
                            FloatingField {
                                tag: TagValue::AGENT_TEAM_NAME_TAG,
                                length: len,
                                data: s,
                            },
                        ),
                        ..self
                    },
                ),
            }
        } else if tag == ATC_AGENT_ID_TAG_CODE {
            match crate::byte_codec::parse_cstr_body(body) {
                None => None,
                Some(s) => {
                    let mut agents = self.agents;
                    let rec = AgentTeamConfigEventAgent {
                        agent_id: Some(
                            FloatingField { tag: TagValue::ATC_AGENT_ID_TAG, length: len, data: s },
                        ),
                        agent_flags: None,
                        agent_state: None,
                        state_duration: None,
                    };
                    let ghost recv = rec@;
                    agents.push(rec);
                    proof {
                        assert(agents@.map_values(|a: AgentTeamConfigEventAgent| a@)
                            =~= pre.agents.push(recv));
                    }
                    Some(Self { agents, ..self })
                },
            }
        } else if tag == AGENT_FLAGS_TAG_CODE {
            if body.len() < 2 {
                None
            } else {
                let n = self.agents.len();
                if n > 0 && self.agents[n - 1].state_duration.is_none() {
                    let value = read_u16_be(&body, 0);
                    let mut agents = self.agents;
                    let last = agents.pop().unwrap();
                    let rec = AgentTeamConfigEventAgent {
                        agent_flags: Some(
                            FloatingField {
                                tag: TagValue::AGENT_FLAGS_TAG,
                                length: len,
                                data: value,
                            },
                        ),
                        ..last
                    };
                    let ghost recv = rec@;
                    agents.push(rec);
                    proof {
                        assert(agents@ =~= self.agents@.update(n - 1, rec));
                        assert(agents@.map_values(|a: AgentTeamConfigEventAgent| a@)
                            =~= pre.agents.update(n - 1, recv));
                    }
                    Some(Self { agents, ..self })
                } else {
                    Some(self)
                }
            }
        } else if tag == ATC_AGENT_STATE_TAG_CODE {
            if body.len() < 2 {
                None
            } else {
                let n = self.agents.len();
                if n > 0 && self.agents[n - 1].state_duration.is_none() {
                    let value = read_u16_be(&body, 0);
                    let mut agents = self.agents;
                    let last = agents.pop().unwrap();
                    let rec = AgentTeamConfigEventAgent {
                        agent_state: Some(
                            FloatingField {
                                tag: TagValue::ATC_AGENT_STATE_TAG,
                                length: len,
                                data: value,
                            },
                        ),
                        ..last
                    };
                    let ghost recv = rec@;
                    agents.push(rec);
                    proof {
                        assert(agents@ =~= self.agents@.update(n - 1, rec));
                        assert(agents@.map_values(|a: AgentTeamConfigEventAgent| a@)
                            =~= pre.agents.update(n - 1, recv));
                    }
                    Some(Self { agents, ..self })
                } else {
                    Some(self)
                }
            }
        } else if tag == ATC_AGENT_STATE_DURATION_TAG_CODE {
            if body.len() < 4 {
                None
            } else {
                let n = self.agents.len();
                if n > 0 && self.agents[n - 1].state_duration.is_none() {
                    let value = read_u32_be(&body, 0);
                    let mut agents = self.agents;
                    let last = agents.pop().unwrap();
                    let rec = AgentTeamConfigEventAgent {
                        state_duration: Some(
                            FloatingField {
                                tag: TagValue::ATC_AGENT_STATE_DURATION_TAG,
                                length: len,
                                data: value,
                            },
                        ),
                        ..last
                    };
                    let ghost recv = rec@;
                    agents.push(rec);
                    proof {
                        assert(agents@ =~= self.agents@.update(n - 1, rec));
                        assert(agents@.map_values(|a: AgentTeamConfigEventAgent| a@)
                            =~= pre.agents.update(n - 1, recv));
                    }
                    Some(Self { agents, ..self })
                } else {
                    Some(self)
                }
            }
        } else {
            Some(self)
        }
    }
}

impl Deserializable for AgentTeamConfigEvent {
    open spec fn spec_deserialize(b: Seq<u8>) -> Option<(AgentTeamConfigEventView, Seq<u8>)> {
        if b.len() < 24 {
            None
        } else {
            let base = AgentTeamConfigEventView {
                mhdr: MHDR {
                    length: u32_from_be(b[0], b[1], b[2], b[3]),
                    message_type: spec_message_type_from_code(u32_from_be(b[4], b[5], b[6], b[7])),
                },
                peripheral_id: u32_from_be(b[8], b[9], b[10], b[11]),
                team_id: u32_from_be(b[12], b[13], b[14], b[15]),
                number_of_agents: u16_from_be(b[16], b[17]),
                config_operation: u16_from_be(b[18], b[19]),
                department_id: i32_from_be(b[20], b[21], b[22], b[23]),
                agent_team_name: None,
                agents: Seq::empty(),
            };
            match decode_fields(base, b.skip(24)) {
                None => None,
                Some(v) => Some((v, Seq::empty())),
            }
        }
    }

    fn deserialize(buffer: &Vec<u8>) -> (r: Option<(Vec<u8>, Self)>) {
        let n = buffer.len();
        if n < 24 {
            return None;
        }
        let base = AgentTeamConfigEvent {
            mhdr: MHDR {
                length: read_u32_be(buffer, 0),
                message_type: MessageType::from_code(read_u32_be(buffer, 4)),
            },
            peripheral_id: read_u32_be(buffer, 8),
            team_id: read_u32_be(buffer, 12),
            number_of_agents: read_u16_be(buffer, 16),
            config_operation: read_u16_be(buffer, 18),
            department_id: read_i32_be(buffer, 20),
            agent_team_name: None,
            agents: Vec::new(),
        };
        proof {
            assert(base@.agents =~= Seq::<AgentTeamConfigEventAgentView>::empty());
        }
        match decode_floating(base, buffer, 24) {
            None => None,
            Some(v) => {
                let rest: Vec<u8> = Vec::new();
                proof {
                    assert(rest@ =~= Seq::<u8>::empty());
                }
                Some((rest, v))
            },
        }
    }
}

} // verus!
