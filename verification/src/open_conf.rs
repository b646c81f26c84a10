//! The OPEN_CONF message: the server's answer to the session-opening
//! handshake.
use vstd::prelude::*;
use crate::byte_codec::{
    bool_from_wire, i32_from_be, parse_str_body, read_bool_wire, read_i32_be, read_u16_be,
    read_u32_be, u16_from_be, u32_from_be,
};
use crate::deserializable::Deserializable;
use crate::floating_field::{
    decode_fields, decode_floating, opt_ff_view, FloatingApply, FloatingDecode, FloatingField,
    FloatingFieldView,
};
use crate::message_type::{spec_message_type_from_code, MessageType};
use crate::mhdr::MHDR;
use crate::tag_value::{
    TagValue, AGENT_EXTENSION_TAG_CODE, AGENT_ID_TAG_CODE, AGENT_INSTRUMENT_TAG_CODE,
    MULTI_LINE_AGENT_CONTROL_TAG_CODE, NUM_PERIPHERALS_TAG_CODE, PERIPHERAL_ID_TAG_V11_CODE,
};

verus! {

#[derive(Debug, Clone)]
pub struct OpenConf {
    pub mhdr: MHDR,
    pub invoke_id: u32,
    pub service_granted: u32,
    pub monitor_id: u32,
    pub pg_status: u32,
    pub icm_central_controller_time: u32,
    pub peripheral_online: bool,
    pub peripheral_type: u16,
    pub agent_state: u16,
    pub department_id: i32,
    pub session_type: u16,
    pub agent_extension: Option<FloatingField<String>>,
    pub agent_id: Option<FloatingField<String>>,
    pub agent_instrument: Option<FloatingField<String>>,
    pub num_peripherals: Option<FloatingField<u16>>,
    pub flt_peripheral_id: Option<FloatingField<u32>>,
    pub multiline_agent_control: Option<FloatingField<u16>>,
}

/// The mathematical image of an OPEN_CONF.
pub struct OpenConfView {
    pub mhdr: MHDR,
    pub invoke_id: u32,
    pub service_granted: u32,
    pub monitor_id: u32,
    pub pg_status: u32,
    pub icm_central_controller_time: u32,
    pub peripheral_online: bool,
    pub peripheral_type: u16,
    pub agent_state: u16,
    pub department_id: i32,
    pub session_type: u16,
    pub agent_extension: Option<FloatingFieldView<Seq<char>>>,
    pub agent_id: Option<FloatingFieldView<Seq<char>>>,
    pub agent_instrument: Option<FloatingFieldView<Seq<char>>>,
    pub num_peripherals: Option<FloatingFieldView<u16>>,
    pub flt_peripheral_id: Option<FloatingFieldView<u32>>,
    pub multiline_agent_control: Option<FloatingFieldView<u16>>,
}

impl View for OpenConf {
    type V = OpenConfView;

    open spec fn view(&self) -> OpenConfView {
        OpenConfView {
            mhdr: self.mhdr,
            invoke_id: self.invoke_id,
            service_granted: self.service_granted,
            monitor_id: self.monitor_id,
            pg_status: self.pg_status,
            icm_central_controller_time: self.icm_central_controller_time,
            peripheral_online: self.peripheral_online,
            peripheral_type: self.peripheral_type,
            agent_state: self.agent_state,
            department_id: self.department_id,
            session_type: self.session_type,
            agent_extension: opt_ff_view(self.agent_extension),
            agent_id: opt_ff_view(self.agent_id),
            agent_instrument: opt_ff_view(self.agent_instrument),
            num_peripherals: opt_ff_view(self.num_peripherals),
            flt_peripheral_id: opt_ff_view(self.flt_peripheral_id),
            multiline_agent_control: opt_ff_view(self.multiline_agent_control),
        }
    }
}

impl FloatingApply for OpenConfView {
    open spec fn apply_field(self, tag: u16, len: u16, body: Seq<u8>) -> Option<Self> {
        if tag == AGENT_EXTENSION_TAG_CODE {
            match parse_str_body(body) {
                None => None,
                Some(s) => Some(
                    OpenConfView {
                        agent_extension: Some(
                            FloatingFieldView {
                                tag: TagValue::AGENT_EXTENSION_TAG,
                                length: len,
                                data: s,
                            },
                        ),
                        ..self
                    },
                ),
            }
        } else if tag == AGENT_ID_TAG_CODE {
            match parse_str_body(body) {
                None => None,
                Some(s) => Some(
                    OpenConfView {
                        agent_id: Some(
                            FloatingFieldView { tag: TagValue::AGENT_ID_TAG, length: len, data: s },
                        ),
                        ..self
                    },
                ),
            }
        } else if tag == AGENT_INSTRUMENT_TAG_CODE {
            match parse_str_body(body) {
                None => None,
                Some(s) => Some(
                    OpenConfView {
                        agent_instrument: Some(
                            FloatingFieldView {
                                tag: TagValue::AGENT_INSTRUMENT_TAG,
                                length: len,
                                data: s,
                            },
                        ),
                        ..self
                    },
                ),
            }
        } else if tag == NUM_PERIPHERALS_TAG_CODE {
            if body.len() < 2 {
                None
            } else {
                Some(
                    OpenConfView {
                        num_peripherals: Some(
                            FloatingFieldView {
                                tag: TagValue::NUM_PERIPHERALS_TAG,
                                length: len,
                                data: u16_from_be(body[0], body[1]),
                            },
                        ),
                        ..self
                    },
                )
            }
        } else if tag == PERIPHERAL_ID_TAG_V11_CODE {
            if body.len() < 4 {
                None
            } else {
                Some(
                    OpenConfView {
                        flt_peripheral_id: Some(
                            FloatingFieldView {
                                tag: TagValue::PERIPHERAL_ID_TAG_V11,
                                length: len,
                                data: u32_from_be(body[0], body[1], body[2], body[3]),
                            },
                        ),
                        ..self
                    },
                )
            }
        } else if tag == MULTI_LINE_AGENT_CONTROL_TAG_CODE {
            if body.len() < 2 {
                None
            } else {
                Some(
                    OpenConfView {
                        multiline_agent_control: Some(
                            FloatingFieldView {
                                tag: TagValue::MULTI_LINE_AGENT_CONTROL_TAG,
                                length: len,
                                data: u16_from_be(body[0], body[1]),
                            },
                        ),
                        ..self
                    },
                )
            }
        } else {
            Some(self)
        }
    }
}

impl FloatingDecode for OpenConf {
    fn apply_field_exec(self, tag: u16, len: u16, body: Vec<u8>) -> (r: Option<Self>) {
        if tag == AGENT_EXTENSION_TAG_CODE {
            match crate::byte_codec::parse_cstr_body(body) {
                None => None,
                Some(s) => Some(
                    Self {
                        agent_extension: Some(
                            FloatingField {
                                tag: TagValue::AGENT_EXTENSION_TAG,
                                length: len,
                                data: s,
                            },
                        ),
                        ..self
                    },
                ),
            }
        } else if tag == AGENT_ID_TAG_CODE {
            match crate::byte_codec::parse_cstr_body(body) {
                None => None,
                Some(s) => Some(
                    Self {
                        agent_id: Some(
                            FloatingField { tag: TagValue::AGENT_ID_TAG, length: len, data: s },
                        ),
                        ..self
                    },
                ),
            }
        } else if tag == AGENT_INSTRUMENT_TAG_CODE {
            match crate::byte_codec::parse_cstr_body(body) {
                None => None,
                Some(s) => Some(
                    Self {
                        agent_instrument: Some(
                            FloatingField {
                                tag: TagValue::AGENT_INSTRUMENT_TAG,
                                length: len,
                                data: s,
                            },
                        ),
                        ..self
                    },
                ),
            }
        } else if tag == NUM_PERIPHERALS_TAG_CODE {
            if body.len() < 2 {
                None
            } else {
                Some(
                    Self {
                        num_peripherals: Some(
                            FloatingField {
                                tag: TagValue::NUM_PERIPHERALS_TAG,
                                length: len,
                                data: read_u16_be(&body, 0),
                            },
                        ),
                        ..self
                    },
                )
            }
        } else if tag == PERIPHERAL_ID_TAG_V11_CODE {
            if body.len() < 4 {
                None
            } else {
                Some(
                    Self {
                        flt_peripheral_id: Some(
                            FloatingField {
                                tag: TagValue::PERIPHERAL_ID_TAG_V11,
                                length: len,
                                data: read_u32_be(&body, 0),
                            },
                        ),
                        ..self
                    },
                )
            }
        } else if tag == MULTI_LINE_AGENT_CONTROL_TAG_CODE {
            if body.len() < 2 {
                None
            } else {
                Some(
                    Self {
                        multiline_agent_control: Some(
                            FloatingField {
                                tag: TagValue::MULTI_LINE_AGENT_CONTROL_TAG,
                                length: len,
                                data: read_u16_be(&body, 0),
                            },
                        ),
                        ..self
                    },
                )
            }
        } else {
            Some(self)
        }
    }
}

impl Deserializable for OpenConf {
    open spec fn spec_deserialize(b: Seq<u8>) -> Option<(OpenConfView, Seq<u8>)> {
        if b.len() < 40 {
            None
        } else {
            let base = OpenConfView {
                mhdr: MHDR {
                    length: u32_from_be(b[0], b[1], b[2], b[3]),
                    message_type: spec_message_type_from_code(u32_from_be(b[4], b[5], b[6], b[7])),
                },
                invoke_id: u32_from_be(b[8], b[9], b[10], b[11]),
                service_granted: u32_from_be(b[12], b[13], b[14], b[15]),
                monitor_id: u32_from_be(b[16], b[17], b[18], b[19]),
                pg_status: u32_from_be(b[20], b[21], b[22], b[23]),
                icm_central_controller_time: u32_from_be(b[24], b[25], b[26], b[27]),
                peripheral_online: bool_from_wire(b[28], b[29]),
                peripheral_type: u16_from_be(b[30], b[31]),
                agent_state: u16_from_be(b[32], b[33]),
                department_id: i32_from_be(b[34], b[35], b[36], b[37]),
                session_type: u16_from_be(b[38], b[39]),
                agent_extension: None,
                agent_id: None,
                agent_instrument: None,
                num_peripherals: None,
                flt_peripheral_id: None,
                multiline_agent_control: None,
            };
            match decode_fields(base, b.skip(40)) {
                None => None,
                Some(v) => Some((v, Seq::empty())),
            }
        }
    }

    fn deserialize(buffer: &Vec<u8>) -> (r: Option<(Vec<u8>, Self)>) {
        let n = buffer.len();
        if n < 40 {
            return None;
        }
        let base = OpenConf {
            mhdr: MHDR {
                length: read_u32_be(buffer, 0),
                message_type: MessageType::from_code(read_u32_be(buffer, 4)),
            },
            invoke_id: read_u32_be(buffer, 8),
            service_granted: read_u32_be(buffer, 12),
            monitor_id: read_u32_be(buffer, 16),
            pg_status: read_u32_be(buffer, 20),
            icm_central_controller_time: read_u32_be(buffer, 24),
            peripheral_online: read_bool_wire(buffer, 28),
            peripheral_type: read_u16_be(buffer, 30),
            agent_state: read_u16_be(buffer, 32),
            department_id: read_i32_be(buffer, 34),
            session_type: read_u16_be(buffer, 38),
            agent_extension: None,
            agent_id: None,
            agent_instrument: None,
            num_peripherals: None,
            flt_peripheral_id: None,
            multiline_agent_control: None,
        };
        match decode_floating(base, buffer, 40) {
            None => None,
            Some(v) => {
                let rest: Vec<u8> = Vec::new();
                proof {
                    assert(rest@ =~= Seq::<u8>::empty());
                }
                Some((rest, v))
            },
        }
    }
}

} // verus!
