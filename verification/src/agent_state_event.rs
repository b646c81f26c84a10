//! The AGENT_STATE_EVENT message: an unsolicited report that one agent's
//! state changed.
use vstd::prelude::*;
use crate::byte_codec::{
    i32_from_be, parse_str_body, read_i32_be, read_u16_be, read_u32_be, u16_from_be, u32_from_be,
};
use crate::deserializable::Deserializable;
use crate::floating_field::{
    decode_fields, decode_floating, opt_ff_view, FloatingApply, FloatingDecode, FloatingField,
    FloatingFieldView,
};
use crate::message_type::{spec_message_type_from_code, MessageType};
use crate::mhdr::MHDR;
use crate::tag_value::{
    TagValue, ACTIVE_CONN_DEVID_TAG_CODE, AGENT_EXTENSION_TAG_CODE, AGENT_ID_TAG_CODE,
    AGENT_INSTRUMENT_TAG_CODE, CTI_CLIENT_SIGNATURE_TAG_CODE, DIRECTION_TAG_CODE,
    DURATION_TAG_CODE, MAX_BEYOND_TASK_LIMIT_TAG_CODE, NEXT_AGENT_STATE_TAG_CODE,
    SKILL_GROUP_ID_TAG_CODE, SKILL_GROUP_NUMBER_TAG_CODE, SKILL_GROUP_PRIORITY_TAG_CODE,
    SKILL_GROUP_STATE_TAG_CODE,
};

verus! {

#[derive(Debug, Clone)]
pub struct AgentStateEvent {
    pub mhdr: MHDR,
    pub monitor_id: u32,
    pub peripheral_id: u32,
    pub session_id: u32,
    pub peripheral_type: u16,
    pub skill_group_state: u16,
    pub state_duration: u32,
    pub skill_group_number: u32,
    pub skill_group_id: u32,
    pub skill_group_priority: u16,
    pub agent_state: u16,
    pub event_reason_code: u16,
    pub mrd_id: i32,
    pub num_tasks: u32,
    pub agent_mode: u16,
    pub max_task_limit: u32,
    pub icm_agent_id: i32,
    pub agent_availability_status: u32,
    pub num_flt_skill_groups: u16,
    pub department_id: i32,
    pub cti_client_signature: Option<FloatingField<String>>,
    pub agent_id: Option<FloatingField<String>>,
    pub agent_extension: Option<FloatingField<String>>,
    pub active_terminal: Option<FloatingField<String>>,
    pub agent_instrument: Option<FloatingField<String>>,
    pub duration: Option<FloatingField<u32>>,
    pub next_agent_state: Option<FloatingField<u16>>,
    pub direction: Option<FloatingField<u32>>,
    pub flt_skill_group_number: Option<FloatingField<i32>>,
    pub flt_skill_group_id: Option<FloatingField<u32>>,
    pub flt_skill_group_priority: Option<FloatingField<u16>>,
    pub flt_skill_group_state: Option<FloatingField<u16>>,
    pub max_beyond_task_limit: Option<FloatingField<u32>>,
}

/// The mathematical image of an AGENT_STATE_EVENT.
pub struct AgentStateEventView {
    pub mhdr: MHDR,
    pub monitor_id: u32,
    pub peripheral_id: u32,
    pub session_id: u32,
    pub peripheral_type: u16,
    pub skill_group_state: u16,
    pub state_duration: u32,
    pub skill_group_number: u32,
    pub skill_group_id: u32,
    pub skill_group_priority: u16,
    pub agent_state: u16,
    pub event_reason_code: u16,
    pub mrd_id: i32,
    pub num_tasks: u32,
    pub agent_mode: u16,
    pub max_task_limit: u32,
    pub icm_agent_id: i32,
    pub agent_availability_status: u32,
    pub num_flt_skill_groups: u16,
    pub department_id: i32,
    pub cti_client_signature: Option<FloatingFieldView<Seq<char>>>,
    pub agent_id: Option<FloatingFieldView<Seq<char>>>,
    pub agent_extension: Option<FloatingFieldView<Seq<char>>>,
    pub active_terminal: Option<FloatingFieldView<Seq<char>>>,
    pub agent_instrument: Option<FloatingFieldView<Seq<char>>>,
    pub duration: Option<FloatingFieldView<u32>>,
    pub next_agent_state: Option<FloatingFieldView<u16>>,
    pub direction: Option<FloatingFieldView<u32>>,
    pub flt_skill_group_number: Option<FloatingFieldView<i32>>,
    pub flt_skill_group_id: Option<FloatingFieldView<u32>>,
    pub flt_skill_group_priority: Option<FloatingFieldView<u16>>,
    pub flt_skill_group_state: Option<FloatingFieldView<u16>>,
    pub max_beyond_task_limit: Option<FloatingFieldView<u32>>,
}

impl View for AgentStateEvent {
    type V = AgentStateEventView;

    open spec fn view(&self) -> AgentStateEventView {
        AgentStateEventView {
            mhdr: self.mhdr,
            monitor_id: self.monitor_id,
            peripheral_id: self.peripheral_id,
            session_id: self.session_id,
            peripheral_type: self.peripheral_type,
            skill_group_state: self.skill_group_state,
            state_duration: self.state_duration,
            skill_group_number: self.skill_group_number,
            skill_group_id: self.skill_group_id,
            skill_group_priority: self.skill_group_priority,
            agent_state: self.agent_state,
            event_reason_code: self.event_reason_code,
            mrd_id: self.mrd_id,
            num_tasks: self.num_tasks,
            agent_mode: self.agent_mode,
            max_task_limit: self.max_task_limit,
            icm_agent_id: self.icm_agent_id,
            agent_availability_status: self.agent_availability_status,
            num_flt_skill_groups: self.num_flt_skill_groups,
            department_id: self.department_id,
            cti_client_signature: opt_ff_view(self.cti_client_signature),
            agent_id: opt_ff_view(self.agent_id),
            agent_extension: opt_ff_view(self.agent_extension),
            active_terminal: opt_ff_view(self.active_terminal),
            agent_instrument: opt_ff_view(self.agent_instrument),
            duration: opt_ff_view(self.duration),
            next_agent_state: opt_ff_view(self.next_agent_state),
            direction: opt_ff_view(self.direction),
            flt_skill_group_number: opt_ff_view(self.flt_skill_group_number),
            flt_skill_group_id: opt_ff_view(self.flt_skill_group_id),
            flt_skill_group_priority: opt_ff_view(self.flt_skill_group_priority),
            flt_skill_group_state: opt_ff_view(self.flt_skill_group_state),
            max_beyond_task_limit: opt_ff_view(self.max_beyond_task_limit),
        }
    }
}

impl FloatingApply for AgentStateEventView {
    open spec fn apply_field(self, tag: u16, len: u16, body: Seq<u8>) -> Option<Self> {
        if tag == CTI_CLIENT_SIGNATURE_TAG_CODE {
            match parse_str_body(body) {
                None => None,
                Some(s) => Some(
                    AgentStateEventView {
                        cti_client_signature: Some(
                            FloatingFieldView {
                                tag: TagValue::CTI_CLIENT_SIGNATURE_TAG,
                                length: len,
                                data: s,
                            },
                        ),
                        ..self
                    },
                ),
            }
        } else if tag == AGENT_ID_TAG_CODE {
            match parse_str_body(body) {
                None => None,
                Some(s) => Some(
                    AgentStateEventView {
                        agent_id: Some(
                            FloatingFieldView { tag: TagValue::AGENT_ID_TAG, length: len, data: s },
                        ),
                        ..self
                    },
                ),
            }
        } else if tag == AGENT_EXTENSION_TAG_CODE {
            match parse_str_body(body) {
                None => None,
                Some(s) => Some(
                    AgentStateEventView {
                        agent_extension: Some(
                            FloatingFieldView {
                                tag: TagValue::AGENT_EXTENSION_TAG,
                                length: len,
                                data: s,
                            },
                        ),
                        ..self
                    },
                ),
            }
        } else if tag == ACTIVE_CONN_DEVID_TAG_CODE {
            match parse_str_body(body) {
                None => None,
                Some(s) => Some(
                    AgentStateEventView {
                        active_terminal: Some(
                            FloatingFieldView {
                                tag: TagValue::ACTIVE_CONN_DEVID_TAG,
                                length: len,
                                data: s,
                            },
                        ),
                        ..self
                    },
                ),
            }
        } else if tag == AGENT_INSTRUMENT_TAG_CODE {
            match parse_str_body(body) {
                None => None,
                Some(s) => Some(
                    AgentStateEventView {
                        agent_instrument: Some(
                            FloatingFieldView {
                                tag: TagValue::AGENT_INSTRUMENT_TAG,
                                length: len,
                                data: s,
                            },
                        ),
                        ..self
                    },
                ),
            }
        } else if tag == DURATION_TAG_CODE {
            if body.len() < 4 {
                None
            } else {
                Some(
                    AgentStateEventView {
                        duration: Some(
                            FloatingFieldView {
                                tag: TagValue::DURATION_TAG,
                                length: len,
                                data: u32_from_be(body[0], body[1], body[2], body[3]),
                            },
                        ),
                        ..self
                    },
                )
            }
        } else if tag == NEXT_AGENT_STATE_TAG_CODE {
            if body.len() < 2 {
                None
            } else {
                Some(
                    AgentStateEventView {
                        next_agent_state: Some(
                            FloatingFieldView {
                                tag: TagValue::NEXT_AGENT_STATE_TAG,
                                length: len,
                                data: u16_from_be(body[0], body[1]),
                            },
                        ),
                        ..self
                    },
                )
            }
        } else if tag == DIRECTION_TAG_CODE {
            if body.len() < 4 {
                None
            } else {
                Some(
                    AgentStateEventView {
                        direction: Some(
                            FloatingFieldView {
                                tag: TagValue::DIRECTION_TAG,
                                length: len,
                                data: u32_from_be(body[0], body[1], body[2], body[3]),
                            },
                        ),
                        ..self
                    },
                )
            }
        } else if tag == SKILL_GROUP_NUMBER_TAG_CODE {
            if body.len() < 4 {
                None
            } else {
                Some(
                    AgentStateEventView {
                        flt_skill_group_number: Some(
                            FloatingFieldView {
                                tag: TagValue::SKILL_GROUP_NUMBER_TAG,
                                length: len,
                                data: i32_from_be(body[0], body[1], body[2], body[3]),
                            },
                        ),
                        ..self
                    },
                )
            }
        } else if tag == SKILL_GROUP_ID_TAG_CODE {
            if body.len() < 4 {
                None
            } else {
                Some(
                    AgentStateEventView {
                        flt_skill_group_id: Some(
                            FloatingFieldView {
                                tag: TagValue::SKILL_GROUP_ID_TAG,
                                length: len,
                                data: u32_from_be(body[0], body[1], body[2], body[3]),
                            },
                        ),
                        ..self
                    },
                )
            }
        } else if tag == SKILL_GROUP_PRIORITY_TAG_CODE {
            if body.len() < 2 {
                None
            } else {
                Some(
                    AgentStateEventView {
                        flt_skill_group_priority: Some(
                            FloatingFieldView {
                                tag: TagValue::SKILL_GROUP_PRIORITY_TAG,
                                length: len,
                                data: u16_from_be(body[0], body[1]),
                            },
                        ),
                        ..self
                    },
                )
            }
        } else if tag == SKILL_GROUP_STATE_TAG_CODE {
            if body.len() < 2 {
                None
            } else {
                Some(
                    AgentStateEventView {
                        flt_skill_group_state: Some(
                            FloatingFieldView {
                                tag: TagValue::SKILL_GROUP_STATE_TAG,
                                length: len,
                                data: u16_from_be(body[0], body[1]),
                            },
                        ),
                        ..self
                    },
                )
            }
        } else if tag == MAX_BEYOND_TASK_LIMIT_TAG_CODE {
            if body.len() < 4 {
                None
            } else {
                Some(
                    AgentStateEventView {
                        max_beyond_task_limit: Some(
                            FloatingFieldView {
                                tag: TagValue::MAX_BEYOND_TASK_LIMIT_TAG,
                                length: len,
                                data: u32_from_be(body[0], body[1], body[2], body[3]),
                            },
                        ),
                        ..self
                    },
                )
            }
        } else {
            Some(self)
        }
    }
}

impl FloatingDecode for AgentStateEvent {
    fn apply_field_exec(self, tag: u16, len: u16, body: Vec<u8>) -> (r: Option<Self>) {
        if tag == CTI_CLIENT_SIGNATURE_TAG_CODE {
            match crate::byte_codec::parse_cstr_body(body) {
                None => None,
                Some(s) => Some(
                    Self {
                        cti_client_signature: Some(
                            FloatingField {
                                tag: TagValue::CTI_CLIENT_SIGNATURE_TAG,
                                length: len,
                                data: s,
                            },
                        ),
                        ..self
                    },
                ),
            }
        } else if tag == AGENT_ID_TAG_CODE {
            match crate::byte_codec::parse_cstr_body(body) {
                None => None,
                Some(s) => Some(
                    Self {
                        agent_id: Some(
                            FloatingField { tag: TagValue::AGENT_ID_TAG, length: len, data: s },
                        ),
                        ..self
                    },
                ),
            }
        } else if tag == AGENT_EXTENSION_TAG_CODE {
            match crate::byte_codec::parse_cstr_body(body) {
                None => None,
                Some(s) => Some(
                    Self {
                        agent_extension: Some(
                            FloatingField {
                                tag: TagValue::AGENT_EXTENSION_TAG,
                                length: len,
                                data: s,
                            },
                        ),
                        ..self
                    },
                ),
            }
        } else if tag == ACTIVE_CONN_DEVID_TAG_CODE {
            match crate::byte_codec::parse_cstr_body(body) {
                None => None,
                Some(s) => Some(
                    Self {
                        active_terminal: Some(
                            FloatingField {
                                tag: TagValue::ACTIVE_CONN_DEVID_TAG,
                                length: len,
                                data: s,
                            },
                        ),
                        ..self
                    },
                ),
            }
        } else if tag == AGENT_INSTRUMENT_TAG_CODE {
            match crate::byte_codec::parse_cstr_body(body) {
                None => None,
                Some(s) => Some(
                    Self {
                        agent_instrument: Some(
                            FloatingField {
                                tag: TagValue::AGENT_INSTRUMENT_TAG,
                                length: len,
                                data: s,
                            },
                        ),
                        ..self
                    },
                ),
            }
        } else if tag == DURATION_TAG_CODE {
            if body.len() < 4 {
                None
            } else {
                Some(
                    Self {
                        duration: Some(
                            FloatingField {
                                tag: TagValue::DURATION_TAG,
                                length: len,
                                data: read_u32_be(&body, 0),
                            },
                        ),
                        ..self
                    },
                )
            }
        } else if tag == NEXT_AGENT_STATE_TAG_CODE {
            if body.len() < 2 {
                None
            } else {
                Some(
                    Self {
                        next_agent_state: Some(
                            FloatingField {
                                tag: TagValue::NEXT_AGENT_STATE_TAG,
                                length: len,
                                data: read_u16_be(&body, 0),
                            },
                        ),
                        ..self
                    },
                )
            }
        } else if tag == DIRECTION_TAG_CODE {
            if body.len() < 4 {
                None
            } else {
                Some(
                    Self {
                        direction: Some(
                            FloatingField {
                                tag: TagValue::DIRECTION_TAG,
                                length: len,
                                data: read_u32_be(&body, 0),
                            },
                        ),
                        ..self
                    },
                )
            }
        } else if tag == SKILL_GROUP_NUMBER_TAG_CODE {
            if body.len() < 4 {
                None
            } else {
                Some(
                    Self {
                        flt_skill_group_number: Some(
                            FloatingField {
                                tag: TagValue::SKILL_GROUP_NUMBER_TAG,
                                length: len,
                                data: read_i32_be(&body, 0),
                            },
                        ),
                        ..self
                    },
                )
            }
        } else if tag == SKILL_GROUP_ID_TAG_CODE {
            if body.len() < 4 {
                None
            } else {
                Some(
                    Self {
                        flt_skill_group_id: Some(
                            FloatingField {
                                tag: TagValue::SKILL_GROUP_ID_TAG,
                                length: len,
                                data: read_u32_be(&body, 0),
                            },
                        ),
                        ..self
                    },
                )
            }
        } else if tag == SKILL_GROUP_PRIORITY_TAG_CODE {
            if body.len() < 2 {
                None
            } else {
                Some(
                    Self {
                        flt_skill_group_priority: Some(
                            FloatingField {
                                tag: TagValue::SKILL_GROUP_PRIORITY_TAG,
                                length: len,
                                data: read_u16_be(&body, 0),
                            },
                        ),
                        ..self
                    },
                )
            }
        } else if tag == SKILL_GROUP_STATE_TAG_CODE {
            if body.len() < 2 {
                None
            } else {
                Some(
                    Self {
                        flt_skill_group_state: Some(
                            FloatingField {
                                tag: TagValue::SKILL_GROUP_STATE_TAG,
                                length: len,
                                data: read_u16_be(&body, 0),
                            },
                        ),
                        ..self
                    },
                )
            }
        } else if tag == MAX_BEYOND_TASK_LIMIT_TAG_CODE {
            if body.len() < 4 {
                None
            } else {
                Some(
                    Self {
                        max_beyond_task_limit: Some(
                            FloatingField {
                                tag: TagValue::MAX_BEYOND_TASK_LIMIT_TAG,
                                length: len,
                                data: read_u32_be(&body, 0),
                            },
                        ),
                        ..self
                    },
                )
            }
        } else {
            Some(self)
        }
    }
}

impl Deserializable for AgentStateEvent {
    open spec fn spec_deserialize(b: Seq<u8>) -> Option<(AgentStateEventView, Seq<u8>)> {
        if b.len() < 70 {
            None
        } else {
            let base = AgentStateEventView {
                mhdr: MHDR {
                    length: u32_from_be(b[0], b[1], b[2], b[3]),
                    message_type: spec_message_type_from_code(u32_from_be(b[4], b[5], b[6], b[7])),
                },
                monitor_id: u32_from_be(b[8], b[9], b[10], b[11]),
                peripheral_id: u32_from_be(b[12], b[13], b[14], b[15]),
                session_id: u32_from_be(b[16], b[17], b[18], b[19]),
                peripheral_type: u16_from_be(b[20], b[21]),
                skill_group_state: u16_from_be(b[22], b[23]),
                state_duration: u32_from_be(b[24], b[25], b[26], b[27]),
                skill_group_number: u32_from_be(b[28], b[29], b[30], b[31]),
                skill_group_id: u32_from_be(b[32], b[33], b[34], b[35]),
                skill_group_priority: u16_from_be(b[36], b[37]),
                agent_state: u16_from_be(b[38], b[39]),
                event_reason_code: u16_from_be(b[40], b[41]),
                mrd_id: i32_from_be(b[42], b[43], b[44], b[45]),
                num_tasks: u32_from_be(b[46], b[47], b[48], b[49]),
                agent_mode: u16_from_be(b[50], b[51]),
                max_task_limit: u32_from_be(b[52], b[53], b[54], b[55]),
                icm_agent_id: i32_from_be(b[56], b[57], b[58], b[59]),
                agent_availability_status: u32_from_be(b[60], b[61], b[62], b[63]),
                num_flt_skill_groups: u16_from_be(b[64], b[65]),
                department_id: i32_from_be(b[66], b[67], b[68], b[69]),
                cti_client_signature: None,
                agent_id: None,
                agent_extension: None,
                active_terminal: None,
                agent_instrument: None,
                duration: None,
                next_agent_state: None,
                direction: None,
                flt_skill_group_number: None,
                flt_skill_group_id: None,
                flt_skill_group_priority: None,
                flt_skill_group_state: None,
                max_beyond_task_limit: None,
            };
            match decode_fields(base, b.skip(70)) {
                None => None,
                Some(v) => Some((v, Seq::empty())),
            }
        }
    }

    fn deserialize(buffer: &Vec<u8>) -> (r: Option<(Vec<u8>, Self)>) {
        let n = buffer.len();
        if n < 70 {
            return None;
        }
        let base = AgentStateEvent {
            mhdr: MHDR {
                length: read_u32_be(buffer, 0),
                message_type: MessageType::from_code(read_u32_be(buffer, 4)),
            },
            monitor_id: read_u32_be(buffer, 8),
            peripheral_id: read_u32_be(buffer, 12),
            session_id: read_u32_be(buffer, 16),
            peripheral_type: read_u16_be(buffer, 20),
            skill_group_state: read_u16_be(buffer, 22),
            state_duration: read_u32_be(buffer, 24),
            skill_group_number: read_u32_be(buffer, 28),
            skill_group_id: read_u32_be(buffer, 32),
            skill_group_priority: read_u16_be(buffer, 36),
            agent_state: read_u16_be(buffer, 38),
            event_reason_code: read_u16_be(buffer, 40),
            mrd_id: read_i32_be(buffer, 42),
            num_tasks: read_u32_be(buffer, 46),
            agent_mode: read_u16_be(buffer, 50),
            max_task_limit: read_u32_be(buffer, 52),
            icm_agent_id: read_i32_be(buffer, 56),
            agent_availability_status: read_u32_be(buffer, 60),
            num_flt_skill_groups: read_u16_be(buffer, 64),
            department_id: read_i32_be(buffer, 66),
            cti_client_signature: None,
            agent_id: None,
            agent_extension: None,
            active_terminal: None,
            agent_instrument: None,
            duration: None,
            next_agent_state: None,
            direction: None,
            flt_skill_group_number: None,
            flt_skill_group_id: None,
            flt_skill_group_priority: None,
            flt_skill_group_state: None,
            max_beyond_task_limit: None,
        };
        match decode_floating(base, buffer, 70) {
            None => None,
            Some(v) => {
                let rest: Vec<u8> = Vec::new();
                proof {
                    assert(rest@ =~= Seq::<u8>::empty());
                }
                Some((rest, v))
            },
        }
    }
}

} // verus!
