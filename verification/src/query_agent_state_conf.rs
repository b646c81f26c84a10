//! The QUERY_AGENT_STATE_CONF message: the server's answer to an agent-state
//! query.
use vstd::prelude::*;
use crate::byte_codec::{
    i32_from_be, parse_str_body, read_i32_be, read_u16_be, read_u32_be, u16_from_be, u32_from_be,
};
use crate::deserializable::Deserializable;
use crate::floating_field::{
    decode_fields, decode_floating, opt_ff_view, FloatingApply, FloatingDecode, FloatingField,
    FloatingFieldView,
};
use crate::message_type::{spec_message_type_from_code, MessageType};
use crate::mhdr::MHDR;
use crate::tag_value::{
    TagValue, AGENT_EXTENSION_TAG_CODE, AGENT_ID_TAG_CODE, AGENT_INSTRUMENT_TAG_CODE,
    INTERNAL_AGENT_STATE_TAG_CODE, MAX_BEYOND_TASK_LIMIT_TAG_CODE, SKILL_GROUP_ID_TAG_CODE,
    SKILL_GROUP_NUMBER_TAG_CODE, SKILL_GROUP_PRIORITY_TAG_CODE, SKILL_GROUP_STATE_TAG_CODE,
};

verus! {

#[derive(Debug, Clone)]
pub struct QueryAgentStateConf {
    pub mhdr: MHDR,
    pub invoke_id: u32,
    pub agent_state: u16,
    pub num_skill_groups: u16,
    pub mrd_id: i32,
    pub num_task: u32,
    pub agent_mode: u16,
    pub max_task_limit: u32,
    pub icm_agent_id: i32,
    pub agent_availability_status: u32,
    pub department_id: i32,
    pub agent_id: Option<FloatingField<String>>,
    pub agent_extension: Option<FloatingField<String>>,
    pub agent_instrument: Option<FloatingField<String>>,
    pub skill_group_number: Option<FloatingField<u32>>,
    pub skill_group_id: Option<FloatingField<u32>>,
    pub skill_group_priority: Option<FloatingField<u16>>,
    pub skill_group_state: Option<FloatingField<u16>>,
    pub internal_agent_state: Option<FloatingField<u16>>,
    pub max_beyond_task_limit: Option<FloatingField<u32>>,
}

/// The mathematical image of a QUERY_AGENT_STATE_CONF.
pub struct QueryAgentStateConfView {
    pub mhdr: MHDR,
    pub invoke_id: u32,
    pub agent_state: u16,
    pub num_skill_groups: u16,
    pub mrd_id: i32,
    pub num_task: u32,
    pub agent_mode: u16,
    pub max_task_limit: u32,
    pub icm_agent_id: i32,
    pub agent_availability_status: u32,
    pub department_id: i32,
    pub agent_id: Option<FloatingFieldView<Seq<char>>>,
    pub agent_extension: Option<FloatingFieldView<Seq<char>>>,
    pub agent_instrument: Option<FloatingFieldView<Seq<char>>>,
    pub skill_group_number: Option<FloatingFieldView<u32>>,
    pub skill_group_id: Option<FloatingFieldView<u32>>,
    pub skill_group_priority: Option<FloatingFieldView<u16>>,
    pub skill_group_state: Option<FloatingFieldView<u16>>,
    pub internal_agent_state: Option<FloatingFieldView<u16>>,
    pub max_beyond_task_limit: Option<FloatingFieldView<u32>>,
}

impl View for QueryAgentStateConf {
    type V = QueryAgentStateConfView;

    open spec fn view(&self) -> QueryAgentStateConfView {
        QueryAgentStateConfView {
            mhdr: self.mhdr,
            invoke_id: self.invoke_id,
            agent_state: self.agent_state,
            num_skill_groups: self.num_skill_groups,
            mrd_id: self.mrd_id,
            num_task: self.num_task,
            agent_mode: self.agent_mode,
            max_task_limit: self.max_task_limit,
            icm_agent_id: self.icm_agent_id,
            agent_availability_status: self.agent_availability_status,
            department_id: self.department_id,
            agent_id: opt_ff_view(self.agent_id),
            agent_extension: opt_ff_view(self.agent_extension),
            agent_instrument: opt_ff_view(self.agent_instrument),
            skill_group_number: opt_ff_view(self.skill_group_number),
            skill_group_id: opt_ff_view(self.skill_group_id),
            skill_group_priority: opt_ff_view(self.skill_group_priority),
            skill_group_state: opt_ff_view(self.skill_group_state),
            internal_agent_state: opt_ff_view(self.internal_agent_state),
            max_beyond_task_limit: opt_ff_view(self.max_beyond_task_limit),
        }
    }
}

impl FloatingApply for QueryAgentStateConfView {
    open spec fn apply_field(self, tag: u16, len: u16, body: Seq<u8>) -> Option<Self> {
        if tag == AGENT_ID_TAG_CODE {
            match parse_str_body(body) {
                None => None,
                Some(s) => Some(
                    QueryAgentStateConfView {
                        agent_id: Some(
                            FloatingFieldView { tag: TagValue::AGENT_ID_TAG, length: len, data: s },
                        ),
                        ..self
                    },
                ),
            }
        } else if tag == AGENT_EXTENSION_TAG_CODE {
            match parse_str_body(body) {
                None => None,
                Some(s) => Some(
                    QueryAgentStateConfView {
                        agent_extension: Some(
                            FloatingFieldView {
                                tag: TagValue::AGENT_EXTENSION_TAG,
                                length: len,
                                data: s,
                            },
                        ),
                        ..self
                    },
                ),
            }
        } else if tag == AGENT_INSTRUMENT_TAG_CODE {
            match parse_str_body(body) {
                None => None,
                Some(s) => Some(
                    QueryAgentStateConfView {
                        agent_instrument: Some(
                            FloatingFieldView {
                                tag: TagValue::AGENT_INSTRUMENT_TAG,
                                length: len,
                                data: s,
                            },
                        ),
                        ..self
                    },
                ),
            }
        } else if tag == SKILL_GROUP_NUMBER_TAG_CODE {
            if body.len() < 4 {
                None
            } else {
                Some(
                    QueryAgentStateConfView {
                        skill_group_number: Some(
                            FloatingFieldView {
                                tag: TagValue::SKILL_GROUP_NUMBER_TAG,
                                length: len,
                                data: u32_from_be(body[0], body[1], body[2], body[3]),
                            },
                        ),
                        ..self
                    },
                )
            }
        } else if tag == SKILL_GROUP_ID_TAG_CODE {
            if body.len() < 4 {
                None
            } else {
                Some(
                    QueryAgentStateConfView {
                        skill_group_id: Some(
                            FloatingFieldView {
                                tag: TagValue::SKILL_GROUP_ID_TAG,
                                length: len,
                                data: u32_from_be(body[0], body[1], body[2], body[3]),
                            },
                        ),
                        ..self
                    },
                )
            }
        } else if tag == SKILL_GROUP_PRIORITY_TAG_CODE {
            if body.len() < 2 {
                None
            } else {
                Some(
                    QueryAgentStateConfView {
                        skill_group_priority: Some(
                            FloatingFieldView {
                                tag: TagValue::SKILL_GROUP_PRIORITY_TAG,
                                length: len,
                                data: u16_from_be(body[0], body[1]),
                            },
                        ),
                        ..self
                    },
                )
            }
        } else if tag == SKILL_GROUP_STATE_TAG_CODE {
            if body.len() < 2 {
                None
            } else {
                Some(
                    QueryAgentStateConfView {
                        skill_group_state: Some(
                            FloatingFieldView {
                                tag: TagValue::SKILL_GROUP_STATE_TAG,
                                length: len,
                                data: u16_from_be(body[0], body[1]),
                            },
                        ),
                        ..self
                    },
                )
            }
        } else if tag == INTERNAL_AGENT_STATE_TAG_CODE {
            if body.len() < 2 {
                None
            } else {
                Some(
                    QueryAgentStateConfView {
                        internal_agent_state: Some(
                            FloatingFieldView {
                                tag: TagValue::INTERNAL_AGENT_STATE_TAG,
                                length: len,
                                data: u16_from_be(body[0], body[1]),
                            },
                        ),
                        ..self
                    },
                )
            }
        } else if tag == MAX_BEYOND_TASK_LIMIT_TAG_CODE {
            if body.len() < 4 {
                None
            } else {
                Some(
                    QueryAgentStateConfView {
                        max_beyond_task_limit: Some(
                            FloatingFieldView {
                                tag: TagValue::MAX_BEYOND_TASK_LIMIT_TAG,
                                length: len,
                                data: u32_from_be(body[0], body[1], body[2], body[3]),
                            },
                        ),
                        ..self
                    },
                )
            }
        } else {
            Some(self)
        }
    }
}

impl FloatingDecode for QueryAgentStateConf {
    fn apply_field_exec(self, tag: u16, len: u16, body: Vec<u8>) -> (r: Option<Self>) {
        if tag == AGENT_ID_TAG_CODE {
            match crate::byte_codec::parse_cstr_body(body) {
                None => None,
                Some(s) => Some(
                    Self {
                        agent_id: Some(
                            FloatingField { tag: TagValue::AGENT_ID_TAG, length: len, data: s },
                        ),
                        ..self
                    },
                ),
            }
        } else if tag == AGENT_EXTENSION_TAG_CODE {
            match crate::byte_codec::parse_cstr_body(body) {
                None => None,
                Some(s) => Some(
                    Self {
                        agent_extension: Some(
                            FloatingField {
                                tag: TagValue::AGENT_EXTENSION_TAG,
                                length: len,
                                data: s,
                            },
                        ),
                        ..self
                    },
                ),
            }
        } else if tag == AGENT_INSTRUMENT_TAG_CODE {
            match crate::byte_codec::parse_cstr_body(body) {
                None => None,
                Some(s) => Some(
                    Self {
                        agent_instrument: Some(
                            FloatingField {
                                tag: TagValue::AGENT_INSTRUMENT_TAG,
                                length: len,
                                data: s,
                            },
                        ),
                        ..self
                    },
                ),
            }
        } else if tag == SKILL_GROUP_NUMBER_TAG_CODE {
            if body.len() < 4 {
                None
            } else {
                Some(
                    Self {
                        skill_group_number: Some(
                            FloatingField {
                                tag: TagValue::SKILL_GROUP_NUMBER_TAG,
                                length: len,
                                data: read_u32_be(&body, 0),
                            },
                        ),
                        ..self
                    },
                )
            }
        } else if tag == SKILL_GROUP_ID_TAG_CODE {
            if body.len() < 4 {
                None
            } else {
                Some(
                    Self {
                        skill_group_id: Some(
                            FloatingField {
                                tag: TagValue::SKILL_GROUP_ID_TAG,
                                length: len,
                                data: read_u32_be(&body, 0),
                            },
                        ),
                        ..self
                    },
                )
            }
        } else if tag == SKILL_GROUP_PRIORITY_TAG_CODE {
            if body.len() < 2 {
                None
            } else {
                Some(
                    Self {
                        skill_group_priority: Some(
                            FloatingField {
                                tag: TagValue::SKILL_GROUP_PRIORITY_TAG,
                                length: len,
                                data: read_u16_be(&body, 0),
                            },
                        ),
                        ..self
                    },
                )
            }
        } else if tag == SKILL_GROUP_STATE_TAG_CODE {
            if body.len() < 2 {
                None
            } else {
                Some(
                    Self {
                        skill_group_state: Some(
                            FloatingField {
                                tag: TagValue::SKILL_GROUP_STATE_TAG,
                                length: len,
                                data: read_u16_be(&body, 0),
                            },
                        ),
                        ..self
                    },
                )
            }
        } else if tag == INTERNAL_AGENT_STATE_TAG_CODE {
            if body.len() < 2 {
                None
            } else {
                Some(
                    Self {
                        internal_agent_state: Some(
                            FloatingField {
                                tag: TagValue::INTERNAL_AGENT_STATE_TAG,
                                length: len,
                                data: read_u16_be(&body, 0),
                            },
                        ),
                        ..self
                    },
                )
            }
        } else if tag == MAX_BEYOND_TASK_LIMIT_TAG_CODE {
            if body.len() < 4 {
                None
            } else {
                Some(
                    Self {
                        max_beyond_task_limit: Some(
                            FloatingField {
                                tag: TagValue::MAX_BEYOND_TASK_LIMIT_TAG,
                                length: len,
                                data: read_u32_be(&body, 0),
                            },
                        ),
                        ..self
                    },
                )
            }
        } else {
            Some(self)
        }
    }
}

impl Deserializable for QueryAgentStateConf {
    open spec fn spec_deserialize(b: Seq<u8>) -> Option<(QueryAgentStateConfView, Seq<u8>)> {
        if b.len() < 42 {
            None
        } else {
            let base = QueryAgentStateConfView {
                mhdr: MHDR {
                    length: u32_from_be(b[0], b[1], b[2], b[3]),
                    message_type: spec_message_type_from_code(u32_from_be(b[4], b[5], b[6], b[7])),
                },
                invoke_id: u32_from_be(b[8], b[9], b[10], b[11]),
                agent_state: u16_from_be(b[12], b[13]),
                num_skill_groups: u16_from_be(b[14], b[15]),
                mrd_id: i32_from_be(b[16], b[17], b[18], b[19]),
                num_task: u32_from_be(b[20], b[21], b[22], b[23]),
                agent_mode: u16_from_be(b[24], b[25]),
                max_task_limit: u32_from_be(b[26], b[27], b[28], b[29]),
                icm_agent_id: i32_from_be(b[30], b[31], b[32], b[33]),
                agent_availability_status: u32_from_be(b[34], b[35], b[36], b[37]),
                department_id: i32_from_be(b[38], b[39], b[40], b[41]),
                agent_id: None,
                agent_extension: None,
                agent_instrument: None,
                skill_group_number: None,
                skill_group_id: None,
                skill_group_priority: None,
                skill_group_state: None,
                internal_agent_state: None,
                max_beyond_task_limit: None,
            };
            match decode_fields(base, b.skip(42)) {
                None => None,
                Some(v) => Some((v, Seq::empty())),
            }
        }
    }

    fn deserialize(buffer: &Vec<u8>) -> (r: Option<(Vec<u8>, Self)>) {
        let n = buffer.len();
        if n < 42 {
            return None;
        }
        let base = QueryAgentStateConf {
            mhdr: MHDR {
                length: read_u32_be(buffer, 0),
                message_type: MessageType::from_code(read_u32_be(buffer, 4)),
            },
            invoke_id: read_u32_be(buffer, 8),
            agent_state: read_u16_be(buffer, 12),
            num_skill_groups: read_u16_be(buffer, 14),
            mrd_id: read_i32_be(buffer, 16),
            num_task: read_u32_be(buffer, 20),
            agent_mode: read_u16_be(buffer, 24),
            max_task_limit: read_u32_be(buffer, 26),
            icm_agent_id: read_i32_be(buffer, 30),
            agent_availability_status: read_u32_be(buffer, 34),
            department_id: read_i32_be(buffer, 38),
            agent_id: None,
            agent_extension: None,
            agent_instrument: None,
            skill_group_number: None,
            skill_group_id: None,
            skill_group_priority: None,
            skill_group_state: None,
            internal_agent_state: None,
            max_beyond_task_limit: None,
        };
        match decode_floating(base, buffer, 42) {
            None => None,
            Some(v) => {
                let rest: Vec<u8> = Vec::new();
                proof {
                    assert(rest@ =~= Seq::<u8>::empty());
                }
                Some((rest, v))
            },
        }
    }
}

} // verus!
