//! The OPEN_REQ message: the session-opening handshake request.
use vstd::prelude::*;
use crate::byte_codec::{
    cstr_bytes, i32_be_bytes, i32_from_be, lemma_i32_be_round, lemma_parse_cstr_round,
    lemma_u32_be_round, parse_str_body, push_u32_be, read_u32_be, u32_be_bytes, u32_from_be,
};
use crate::deserializable::Deserializable;
use crate::floating_field::{
    decode_fields, decode_floating, field_bytes, i32_field_canonical, lemma_decode_fields_field,
    lemma_opt_field_len, opt_ff_view, str_field_canonical, FloatingApply, FloatingDecode,
    FloatingField, FloatingFieldView,
};
use crate::message_type::{spec_message_type_from_code, MessageType, OPEN_REQ_CODE};
use crate::mhdr::{mhdr_bytes, MHDR};
use crate::serializable::Serializable;
use crate::tag_value::{
    spec_tag_code, TagValue, AGENT_EXTENSION_TAG_CODE, AGENT_ID_TAG_CODE,
    AGENT_INSTRUMENT_TAG_CODE, APPLICATION_PATH_ID_TAG_CODE, CLIENT_ID_TAG_CODE,
    CLIENT_PASSWORD_TAG_CODE, CLIENT_SIGNATURE_TAG_CODE, UNIQUE_INSTANCE_ID_TAG_CODE,
};

verus! {

#[derive(Debug, Clone)]
pub struct OpenReq {
    pub mhdr: MHDR,
    pub invoke_id: u32,
    pub version_number: u32,
    pub idle_timeout: u32,
    pub peripheral_id: u32,
    pub services_requested: u32,
    pub call_msg_mask: u32,
    pub agent_state_mask: u32,
    pub config_msg_mask: u32,
    pub reserved1: u32,
    pub reserved2: u32,
    pub reserved3: u32,
    pub client_id: Option<FloatingField<String>>,
    pub client_password: Option<FloatingField<String>>,
    pub client_signature: Option<FloatingField<String>>,
    pub agent_extension: Option<FloatingField<String>>,
    pub agent_id: Option<FloatingField<String>>,
    pub agent_instrument: Option<FloatingField<String>>,
    pub application_path_id: Option<FloatingField<i32>>,
    pub unique_instance_id: Option<FloatingField<i32>>,
}

/// The mathematical image of an OPEN_REQ.
pub struct OpenReqView {
    pub mhdr: MHDR,
    pub invoke_id: u32,
    pub version_number: u32,
    pub idle_timeout: u32,
    pub peripheral_id: u32,
    pub services_requested: u32,
    pub call_msg_mask: u32,
    pub agent_state_mask: u32,
    pub config_msg_mask: u32,
    pub reserved1: u32,
    pub reserved2: u32,
    pub reserved3: u32,
    pub client_id: Option<FloatingFieldView<Seq<char>>>,
    pub client_password: Option<FloatingFieldView<Seq<char>>>,
    pub client_signature: Option<FloatingFieldView<Seq<char>>>,
    pub agent_extension: Option<FloatingFieldView<Seq<char>>>,
    pub agent_id: Option<FloatingFieldView<Seq<char>>>,
    pub agent_instrument: Option<FloatingFieldView<Seq<char>>>,
    pub application_path_id: Option<FloatingFieldView<i32>>,
    pub unique_instance_id: Option<FloatingFieldView<i32>>,
}

impl View for OpenReq {
    type V = OpenReqView;

    open spec fn view(&self) -> OpenReqView {
        OpenReqView {
            mhdr: self.mhdr,
            invoke_id: self.invoke_id,
            version_number: self.version_number,
            idle_timeout: self.idle_timeout,
            peripheral_id: self.peripheral_id,
            services_requested: self.services_requested,
            call_msg_mask: self.call_msg_mask,
            agent_state_mask: self.agent_state_mask,
            config_msg_mask: self.config_msg_mask,
            reserved1: self.reserved1,
            reserved2: self.reserved2,
            reserved3: self.reserved3,
            client_id: opt_ff_view(self.client_id),
            client_password: opt_ff_view(self.client_password),
            client_signature: opt_ff_view(self.client_signature),
            agent_extension: opt_ff_view(self.agent_extension),
            agent_id: opt_ff_view(self.agent_id),
            agent_instrument: opt_ff_view(self.agent_instrument),
            application_path_id: opt_ff_view(self.application_path_id),
            unique_instance_id: opt_ff_view(self.unique_instance_id),
        }
    }
}

/// The fixed prefix of the body: eleven 32-bit words.
pub open spec fn open_req_fixed(m: &OpenReq) -> Seq<u8> {
    u32_be_bytes(m.invoke_id) + u32_be_bytes(m.version_number) + u32_be_bytes(m.idle_timeout)
        + u32_be_bytes(m.peripheral_id) + u32_be_bytes(m.services_requested) + u32_be_bytes(
        m.call_msg_mask,
    ) + u32_be_bytes(m.agent_state_mask) + u32_be_bytes(m.config_msg_mask) + u32_be_bytes(
        m.reserved1,
    ) + u32_be_bytes(m.reserved2) + u32_be_bytes(m.reserved3)
}

/// The body bytes: the fixed prefix, then the optional floating fields in
/// their fixed emission order.
pub open spec fn open_req_body(m: &OpenReq) -> Seq<u8> {
    open_req_fixed(m) + m.client_id.spec_serialize() + m.client_password.spec_serialize()
        + m.client_signature.spec_serialize() + m.agent_extension.spec_serialize()
        + m.agent_id.spec_serialize() + m.agent_instrument.spec_serialize()
        + m.application_path_id.spec_serialize() + m.unique_instance_id.spec_serialize()
}

impl Serializable for OpenReq {
    /// The header is emitted with the computed body length and the OPEN_REQ
    /// code, whatever the `mhdr` field holds.
    open spec fn spec_serialize(&self) -> Seq<u8> {
        mhdr_bytes(open_req_body(self).len() as u32, OPEN_REQ_CODE) + open_req_body(self)
    }

    open spec fn serializable(&self) -> bool {
        self.client_id.serializable() && self.client_password.serializable()
            && self.client_signature.serializable() && self.agent_extension.serializable()
            && self.agent_id.serializable() && self.agent_instrument.serializable()
            && self.application_path_id.serializable() && self.unique_instance_id.serializable()
    }

    #[verifier::rlimit(100)]
    fn serialize(self) -> (r: Vec<u8>) {
        proof {
            lemma_opt_field_len(&self.client_id);
            lemma_opt_field_len(&self.client_password);
            lemma_opt_field_len(&self.client_signature);
            lemma_opt_field_len(&self.agent_extension);
            lemma_opt_field_len(&self.agent_id);
            lemma_opt_field_len(&self.agent_instrument);
            lemma_opt_field_len(&self.application_path_id);
            lemma_opt_field_len(&self.unique_instance_id);
        }
        let mut body: Vec<u8> = Vec::new();
        push_u32_be(&mut body, self.invoke_id);
        push_u32_be(&mut body, self.version_number);
        push_u32_be(&mut body, self.idle_timeout);
        push_u32_be(&mut body, self.peripheral_id);
        push_u32_be(&mut body, self.services_requested);
        push_u32_be(&mut body, self.call_msg_mask);
        push_u32_be(&mut body, self.agent_state_mask);
        push_u32_be(&mut body, self.config_msg_mask);
        push_u32_be(&mut body, self.reserved1);
        push_u32_be(&mut body, self.reserved2);
        push_u32_be(&mut body, self.reserved3);
        proof {
            assert(body@ =~= open_req_fixed(&self));
        }
        let mut f = self.client_id.serialize();
        body.append(&mut f);
        let mut f = self.client_password.serialize();
        body.append(&mut f);
        let mut f = self.client_signature.serialize();
        body.append(&mut f);
        let mut f = self.agent_extension.serialize();
        body.append(&mut f);
        let mut f = self.agent_id.serialize();
        body.append(&mut f);
        let mut f = self.agent_instrument.serialize();
        body.append(&mut f);
        let mut f = self.application_path_id.serialize();
        body.append(&mut f);
        let mut f = self.unique_instance_id.serialize();
        body.append(&mut f);
        proof {
            assert(body@ == open_req_body(&self));
        }
        let mut out: Vec<u8> = Vec::new();
        push_u32_be(&mut out, body.len() as u32);
        push_u32_be(&mut out, OPEN_REQ_CODE);
        out.append(&mut body);
        proof {
            crate::byte_codec::lemma_seq_empty_left(
                u32_be_bytes(open_req_body(&self).len() as u32),
            );
            assert(out@ == self.spec_serialize());
        }
        out
    }
}

impl FloatingApply for OpenReqView {
    open spec fn apply_field(self, tag: u16, len: u16, body: Seq<u8>) -> Option<Self> {
        if tag == CLIENT_ID_TAG_CODE {
            match parse_str_body(body) {
                None => None,
                Some(s) => Some(
                    OpenReqView {
                        client_id: Some(
                            FloatingFieldView { tag: TagValue::CLIENT_ID_TAG, length: len, data: s },
                        ),
                        ..self
                    },
                ),
            }
        } else if tag == CLIENT_PASSWORD_TAG_CODE {
            match parse_str_body(body) {
                None => None,
                Some(s) => Some(
                    OpenReqView {
                        client_password: Some(
                            FloatingFieldView {
                                tag: TagValue::CLIENT_PASSWORD_TAG,
                                length: len,
                                data: s,
                            },
                        ),
                        ..self
                    },
                ),
            }
        } else if tag == CLIENT_SIGNATURE_TAG_CODE {
            match parse_str_body(body) {
                None => None,
                Some(s) => Some(
                    OpenReqView {
                        client_signature: Some(
                            FloatingFieldView {
                                tag: TagValue::CLIENT_SIGNATURE_TAG,
                                length: len,
                                data: s,
                            },
                        ),
                        ..self
                    },
                ),
            }
        } else if tag == AGENT_EXTENSION_TAG_CODE {
            match parse_str_body(body) {
                None => None,
                Some(s) => Some(
                    OpenReqView {
                        agent_extension: Some(
                            FloatingFieldView {
                                tag: TagValue::AGENT_EXTENSION_TAG,
                                length: len,
                                data: s,
                            },
                        ),
                        ..self
                    },
                ),
            }
        } else if tag == AGENT_ID_TAG_CODE {
            match parse_str_body(body) {
                None => None,
                Some(s) => Some(
                    OpenReqView {
                        agent_id: Some(
                            FloatingFieldView { tag: TagValue::AGENT_ID_TAG, length: len, data: s },
                        ),
                        ..self
                    },
                ),
            }
        } else if tag == AGENT_INSTRUMENT_TAG_CODE {
            match parse_str_body(body) {
                None => None,
                Some(s) => Some(
                    OpenReqView {
                        agent_instrument: Some(
                            FloatingFieldView {
                                tag: TagValue::AGENT_INSTRUMENT_TAG,
                                length: len,
                                data: s,
                            },
                        ),
                        ..self
                    },
                ),
            }
        } else if tag == APPLICATION_PATH_ID_TAG_CODE {
            if body.len() < 4 {
                None
            } else {
                Some(
                    OpenReqView {
                        application_path_id: Some(
                            FloatingFieldView {
                                tag: TagValue::APPLICATION_PATH_ID_TAG,
                                length: len,
                                data: i32_from_be(body[0], body[1], body[2], body[3]),
                            },
                        ),
                        ..self
                    },
                )
            }
        } else if tag == UNIQUE_INSTANCE_ID_TAG_CODE {
            if body.len() < 4 {
                None
            } else {
                Some(
                    OpenReqView {
                        unique_instance_id: Some(
                            FloatingFieldView {
                                tag: TagValue::UNIQUE_INSTANCE_ID_TAG,
                                length: len,
                                data: i32_from_be(body[0], body[1], body[2], body[3]),
                            },
                        ),
                        ..self
                    },
                )
            }
        } else {
            Some(self)
        }
    }
}

impl FloatingDecode for OpenReq {
    fn apply_field_exec(self, tag: u16, len: u16, body: Vec<u8>) -> (r: Option<Self>) {
        if tag == CLIENT_ID_TAG_CODE {
            match crate::byte_codec::parse_cstr_body(body) {
                None => None,
                Some(s) => Some(
                    Self {
                        client_id: Some(
                            FloatingField { tag: TagValue::CLIENT_ID_TAG, length: len, data: s },
                        ),
                        ..self
                    },
                ),
            }
        } else if tag == CLIENT_PASSWORD_TAG_CODE {
            match crate::byte_codec::parse_cstr_body(body) {
                None => None,
                Some(s) => Some(
                    Self {
                        client_password: Some(
                            FloatingField {
                                tag: TagValue::CLIENT_PASSWORD_TAG,
                                length: len,
                                data: s,
                            },
                        ),
                        ..self
                    },
                ),
            }
        } else if tag == CLIENT_SIGNATURE_TAG_CODE {
            match crate::byte_codec::parse_cstr_body(body) {
                None => None,
                Some(s) => Some(
                    Self {
                        client_signature: Some(
                            FloatingField {
                                tag: TagValue::CLIENT_SIGNATURE_TAG,
                                length: len,
                                data: s,
                            },
                        ),
                        ..self
                    },
                ),
            }
        } else if tag == AGENT_EXTENSION_TAG_CODE {
            match crate::byte_codec::parse_cstr_body(body) {
                None => None,
                Some(s) => Some(
                    Self {
                        agent_extension: Some(
                            FloatingField {
                                tag: TagValue::AGENT_EXTENSION_TAG,
                                length: len,
                                data: s,
                            },
                        ),
                        ..self
                    },
                ),
            }
        } else if tag == AGENT_ID_TAG_CODE {
            match crate::byte_codec::parse_cstr_body(body) {
                None => None,
                Some(s) => Some(
                    Self {
                        agent_id: Some(
                            FloatingField { tag: TagValue::AGENT_ID_TAG, length: len, data: s },
                        ),
                        ..self
                    },
                ),
            }
        } else if tag == AGENT_INSTRUMENT_TAG_CODE {
            match crate::byte_codec::parse_cstr_body(body) {
                None => None,
                Some(s) => Some(
                    Self {
                        agent_instrument: Some(
                            FloatingField {
                                tag: TagValue::AGENT_INSTRUMENT_TAG,
                                length: len,
                                data: s,
                            },
                        ),
                        ..self
                    },
                ),
            }
        } else if tag == APPLICATION_PATH_ID_TAG_CODE {
            if body.len() < 4 {
                None
            } else {
                Some(
                    Self {
                        application_path_id: Some(
                            FloatingField {
                                tag: TagValue::APPLICATION_PATH_ID_TAG,
                                length: len,
                                data: crate::byte_codec::read_i32_be(&body, 0),
                            },
                        ),
                        ..self
                    },
                )
            }
        } else if tag == UNIQUE_INSTANCE_ID_TAG_CODE {
            if body.len() < 4 {
                None
            } else {
                Some(
                    Self {
                        unique_instance_id: Some(
                            FloatingField {
                                tag: TagValue::UNIQUE_INSTANCE_ID_TAG,
                                length: len,
                                data: crate::byte_codec::read_i32_be(&body, 0),
                            },
                        ),
                        ..self
                    },
                )
            }
        } else {
            Some(self)
        }
    }
}

impl Deserializable for OpenReq {
    open spec fn spec_deserialize(b: Seq<u8>) -> Option<(OpenReqView, Seq<u8>)> {
        if b.len() < 52 {
            None
        } else {
            let base = OpenReqView {
                mhdr: MHDR {
                    length: u32_from_be(b[0], b[1], b[2], b[3]),
                    message_type: spec_message_type_from_code(u32_from_be(b[4], b[5], b[6], b[7])),
                },
                invoke_id: u32_from_be(b[8], b[9], b[10], b[11]),
                version_number: u32_from_be(b[12], b[13], b[14], b[15]),
                idle_timeout: u32_from_be(b[16], b[17], b[18], b[19]),
                peripheral_id: u32_from_be(b[20], b[21], b[22], b[23]),
                services_requested: u32_from_be(b[24], b[25], b[26], b[27]),
                call_msg_mask: u32_from_be(b[28], b[29], b[30], b[31]),
                agent_state_mask: u32_from_be(b[32], b[33], b[34], b[35]),
                config_msg_mask: u32_from_be(b[36], b[37], b[38], b[39]),
                reserved1: u32_from_be(b[40], b[41], b[42], b[43]),
                reserved2: u32_from_be(b[44], b[45], b[46], b[47]),
                reserved3: u32_from_be(b[48], b[49], b[50], b[51]),
                client_id: None,
                client_password: None,
                client_signature: None,
                agent_extension: None,
                agent_id: None,
                agent_instrument: None,
                application_path_id: None,
                unique_instance_id: None,
            };
            match decode_fields(base, b.skip(52)) {
                None => None,
                Some(v) => Some((v, Seq::empty())),
            }
        }
    }

    fn deserialize(buffer: &Vec<u8>) -> (r: Option<(Vec<u8>, Self)>) {
        let n = buffer.len();
        if n < 52 {
            return None;
        }
        let base = OpenReq {
            mhdr: MHDR {
                length: read_u32_be(buffer, 0),
                message_type: MessageType::from_code(read_u32_be(buffer, 4)),
            },
            invoke_id: read_u32_be(buffer, 8),
            version_number: read_u32_be(buffer, 12),
            idle_timeout: read_u32_be(buffer, 16),
            peripheral_id: read_u32_be(buffer, 20),
            services_requested: read_u32_be(buffer, 24),
            call_msg_mask: read_u32_be(buffer, 28),
            agent_state_mask: read_u32_be(buffer, 32),
            config_msg_mask: read_u32_be(buffer, 36),
            reserved1: read_u32_be(buffer, 40),
            reserved2: read_u32_be(buffer, 44),
            reserved3: read_u32_be(buffer, 48),
            client_id: None,
            client_password: None,
            client_signature: None,
            agent_extension: None,
            agent_id: None,
            agent_instrument: None,
            application_path_id: None,
            unique_instance_id: None,
        };
        match decode_floating(base, buffer, 52) {
            None => None,
            Some(v) => {
                let rest: Vec<u8> = Vec::new();
                proof {
                    assert(rest@ =~= Seq::<u8>::empty());
                }
                Some((rest, v))
            },
        }
    }
}

/// An OPEN_REQ as the session engine builds it: canonical header and
/// canonical floating fields.
pub open spec fn open_req_canonical(m: OpenReq) -> bool {
    &&& m.mhdr == (MHDR {
        length: open_req_body(&m).len() as u32,
        message_type: MessageType::OPEN_REQ,
    })
    &&& str_field_canonical(opt_ff_view(m.client_id), TagValue::CLIENT_ID_TAG)
    &&& str_field_canonical(opt_ff_view(m.client_password), TagValue::CLIENT_PASSWORD_TAG)
    &&& str_field_canonical(opt_ff_view(m.client_signature), TagValue::CLIENT_SIGNATURE_TAG)
    &&& str_field_canonical(opt_ff_view(m.agent_extension), TagValue::AGENT_EXTENSION_TAG)
    &&& str_field_canonical(opt_ff_view(m.agent_id), TagValue::AGENT_ID_TAG)
    &&& str_field_canonical(opt_ff_view(m.agent_instrument), TagValue::AGENT_INSTRUMENT_TAG)
    &&& i32_field_canonical(opt_ff_view(m.application_path_id), TagValue::APPLICATION_PATH_ID_TAG)
    &&& i32_field_canonical(opt_ff_view(m.unique_instance_id), TagValue::UNIQUE_INSTANCE_ID_TAG)
}

/// The view after an optional string field of this message is decoded.
pub open spec fn open_req_apply_str(
    v: OpenReqView,
    f: Option<FloatingField<String>>,
    tag: TagValue,
) -> OpenReqView {
    match f {
        None => v,
        Some(ff) => {
            if tag == TagValue::CLIENT_ID_TAG {
                OpenReqView { client_id: Some(ff@), ..v }
            } else if tag == TagValue::CLIENT_PASSWORD_TAG {
                OpenReqView { client_password: Some(ff@), ..v }
            } else if tag == TagValue::CLIENT_SIGNATURE_TAG {
                OpenReqView { client_signature: Some(ff@), ..v }
            } else if tag == TagValue::AGENT_EXTENSION_TAG {
                OpenReqView { agent_extension: Some(ff@), ..v }
            } else if tag == TagValue::AGENT_ID_TAG {
                OpenReqView { agent_id: Some(ff@), ..v }
            } else {
                OpenReqView { agent_instrument: Some(ff@), ..v }
            }
        },
    }
}

/// The view after an optional 32-bit field of this message is decoded.
pub open spec fn open_req_apply_i32(
    v: OpenReqView,
    f: Option<FloatingField<i32>>,
    tag: TagValue,
) -> OpenReqView {
    match f {
        None => v,
        Some(ff) => {
            if tag == TagValue::APPLICATION_PATH_ID_TAG {
                OpenReqView { application_path_id: Some(ff@), ..v }
            } else {
                OpenReqView { unique_instance_id: Some(ff@), ..v }
            }
        },
    }
}

/// One decoding step over an optional canonical string field.
proof fn lemma_open_req_str_step(
    v: OpenReqView,
    f: Option<FloatingField<String>>,
    tag: TagValue,
    rest: Seq<u8>,
)
    requires
        str_field_canonical(opt_ff_view(f), tag),
        tag == TagValue::CLIENT_ID_TAG || tag == TagValue::CLIENT_PASSWORD_TAG || tag
            == TagValue::CLIENT_SIGNATURE_TAG || tag == TagValue::AGENT_EXTENSION_TAG || tag
            == TagValue::AGENT_ID_TAG || tag == TagValue::AGENT_INSTRUMENT_TAG,
    ensures
        decode_fields(v, f.spec_serialize() + rest) == decode_fields(
            open_req_apply_str(v, f, tag),
            rest,
        ),
{
    match f {
        None => {
            assert(f.spec_serialize() + rest =~= rest);
        },
        Some(ff) => {
            let body = cstr_bytes(ff.data@);
            let code = spec_tag_code(tag);
            assert(f.spec_serialize() == field_bytes(code, body));
            lemma_decode_fields_field(v, code, body, rest);
            lemma_parse_cstr_round(ff.data@, Seq::empty());
            assert(body + Seq::<u8>::empty() =~= body);
            assert(parse_str_body(body) == Some(ff.data@));
        },
    }
}

/// One decoding step over an optional canonical 32-bit field.
proof fn lemma_open_req_i32_step(
    v: OpenReqView,
    f: Option<FloatingField<i32>>,
    tag: TagValue,
    rest: Seq<u8>,
)
    requires
        i32_field_canonical(opt_ff_view(f), tag),
        tag == TagValue::APPLICATION_PATH_ID_TAG || tag == TagValue::UNIQUE_INSTANCE_ID_TAG,
    ensures
        decode_fields(v, f.spec_serialize() + rest) == decode_fields(
            open_req_apply_i32(v, f, tag),
            rest,
        ),
{
    match f {
        None => {
            assert(f.spec_serialize() + rest =~= rest);
        },
        Some(ff) => {
            let body = i32_be_bytes(ff.data);
            let code = spec_tag_code(tag);
            assert(f.spec_serialize() == field_bytes(code, body));
            lemma_decode_fields_field(v, code, body, rest);
            lemma_i32_be_round(ff.data);
        },
    }
}

/// The encoded bytes carry the fixed words at their fixed offsets.
#[verifier::rlimit(100)]
proof fn lemma_open_req_prefix_low(m: OpenReq)
    ensures
        ({
            let b = m.spec_serialize();
            let len32 = open_req_body(&m).len() as u32;
            &&& b.len() >= 52
            &&& forall|k: int| 0 <= k < 4 ==> b[k] == u32_be_bytes(len32)[k]
            &&& forall|k: int| 0 <= k < 4 ==> b[4 + k] == u32_be_bytes(OPEN_REQ_CODE)[k]
            &&& forall|k: int| 0 <= k < 4 ==> b[8 + k] == u32_be_bytes(m.invoke_id)[k]
            &&& forall|k: int| 0 <= k < 4 ==> b[12 + k] == u32_be_bytes(m.version_number)[k]
            &&& forall|k: int| 0 <= k < 4 ==> b[16 + k] == u32_be_bytes(m.idle_timeout)[k]
            &&& forall|k: int| 0 <= k < 4 ==> b[20 + k] == u32_be_bytes(m.peripheral_id)[k]
        }),
{
    let b = m.spec_serialize();
    let len32 = open_req_body(&m).len() as u32;
    assert forall|k: int| 0 <= k < 4 implies b[k] == u32_be_bytes(len32)[k] by {}
    assert forall|k: int| 0 <= k < 4 implies b[4 + k] == u32_be_bytes(OPEN_REQ_CODE)[k] by {}
    assert forall|k: int| 0 <= k < 4 implies b[8 + k] == u32_be_bytes(m.invoke_id)[k] by {}
    assert forall|k: int| 0 <= k < 4 implies b[12 + k] == u32_be_bytes(m.version_number)[k] by {}
    assert forall|k: int| 0 <= k < 4 implies b[16 + k] == u32_be_bytes(m.idle_timeout)[k] by {}
    assert forall|k: int| 0 <= k < 4 implies b[20 + k] == u32_be_bytes(m.peripheral_id)[k] by {}
}

/// The encoded bytes carry the remaining fixed words at their fixed offsets,
/// and the floating trailer from offset 52.
#[verifier::rlimit(100)]
proof fn lemma_open_req_prefix_high(m: OpenReq)
    ensures
        ({
            let b = m.spec_serialize();
            &&& b.len() >= 52
            &&& forall|k: int| 0 <= k < 4 ==> b[24 + k] == u32_be_bytes(m.services_requested)[k]
            &&& forall|k: int| 0 <= k < 4 ==> b[28 + k] == u32_be_bytes(m.call_msg_mask)[k]
            &&& forall|k: int| 0 <= k < 4 ==> b[32 + k] == u32_be_bytes(m.agent_state_mask)[k]
            &&& forall|k: int| 0 <= k < 4 ==> b[36 + k] == u32_be_bytes(m.config_msg_mask)[k]
            &&& forall|k: int| 0 <= k < 4 ==> b[40 + k] == u32_be_bytes(m.reserved1)[k]
            &&& forall|k: int| 0 <= k < 4 ==> b[44 + k] == u32_be_bytes(m.reserved2)[k]
            &&& forall|k: int| 0 <= k < 4 ==> b[48 + k] == u32_be_bytes(m.reserved3)[k]
        }),
{
    let b = m.spec_serialize();
    assert forall|k: int| 0 <= k < 4 implies b[24 + k] == u32_be_bytes(
        m.services_requested,
    )[k] by {}
    assert forall|k: int| 0 <= k < 4 implies b[28 + k] == u32_be_bytes(m.call_msg_mask)[k] by {}
    assert forall|k: int| 0 <= k < 4 implies b[32 + k] == u32_be_bytes(m.agent_state_mask)[k] by {}
    assert forall|k: int| 0 <= k < 4 implies b[36 + k] == u32_be_bytes(m.config_msg_mask)[k] by {}
    assert forall|k: int| 0 <= k < 4 implies b[40 + k] == u32_be_bytes(m.reserved1)[k] by {}
    assert forall|k: int| 0 <= k < 4 implies b[44 + k] == u32_be_bytes(m.reserved2)[k] by {}
    assert forall|k: int| 0 <= k < 4 implies b[48 + k] == u32_be_bytes(m.reserved3)[k] by {}
}

/// The view a decoder reaches after the fixed prefix, before any floating
/// field: the message's own fixed words and empty optionals.
pub open spec fn open_req_base_view(m: OpenReq) -> OpenReqView {
    OpenReqView {
        mhdr: MHDR {
            length: open_req_body(&m).len() as u32,
            message_type: MessageType::OPEN_REQ,
        },
        invoke_id: m.invoke_id,
        version_number: m.version_number,
        idle_timeout: m.idle_timeout,
        peripheral_id: m.peripheral_id,
        services_requested: m.services_requested,
        call_msg_mask: m.call_msg_mask,
        agent_state_mask: m.agent_state_mask,
        config_msg_mask: m.config_msg_mask,
        reserved1: m.reserved1,
        reserved2: m.reserved2,
        reserved3: m.reserved3,
        client_id: None,
        client_password: None,
        client_signature: None,
        agent_extension: None,
        agent_id: None,
        agent_instrument: None,
        application_path_id: None,
        unique_instance_id: None,
    }
}

/// Decoding the encoded bytes reduces to walking the floating trailer from
/// the base view.
#[verifier::rlimit(100)]
proof fn lemma_open_req_parse_base(m: OpenReq)
    ensures
        OpenReq::spec_deserialize(m.spec_serialize()) == (match decode_fields(
            open_req_base_view(m),
            m.spec_serialize().skip(52),
        ) {
            None => None,
            Some(v) => Some((v, Seq::<u8>::empty())),
        }),
{
    let b = m.spec_serialize();
    let len32 = open_req_body(&m).len() as u32;
    lemma_open_req_prefix_low(m);
    lemma_open_req_prefix_high(m);
    lemma_u32_be_round(len32);
    lemma_u32_be_round(OPEN_REQ_CODE);
    lemma_u32_be_round(m.invoke_id);
    lemma_u32_be_round(m.version_number);
    lemma_u32_be_round(m.idle_timeout);
    lemma_u32_be_round(m.peripheral_id);
    lemma_u32_be_round(m.services_requested);
    lemma_u32_be_round(m.call_msg_mask);
    lemma_u32_be_round(m.agent_state_mask);
    lemma_u32_be_round(m.config_msg_mask);
    lemma_u32_be_round(m.reserved1);
    lemma_u32_be_round(m.reserved2);
    lemma_u32_be_round(m.reserved3);
    assert(u32_from_be(b[0], b[1], b[2], b[3]) == len32);
    assert(u32_from_be(b[4], b[5], b[6], b[7]) == OPEN_REQ_CODE);
    assert(u32_from_be(b[8], b[9], b[10], b[11]) == m.invoke_id);
    assert(u32_from_be(b[12], b[13], b[14], b[15]) == m.version_number);
    assert(u32_from_be(b[16], b[17], b[18], b[19]) == m.idle_timeout);
    assert(u32_from_be(b[20], b[21], b[22], b[23]) == m.peripheral_id);
    assert(u32_from_be(b[24], b[25], b[26], b[27]) == m.services_requested);
    assert(u32_from_be(b[28], b[29], b[30], b[31]) == m.call_msg_mask);
    assert(u32_from_be(b[32], b[33], b[34], b[35]) == m.agent_state_mask);
    assert(u32_from_be(b[36], b[37], b[38], b[39]) == m.config_msg_mask);
    assert(u32_from_be(b[40], b[41], b[42], b[43]) == m.reserved1);
    assert(u32_from_be(b[44], b[45], b[46], b[47]) == m.reserved2);
    assert(u32_from_be(b[48], b[49], b[50], b[51]) == m.reserved3);
}

/// The floating trailer is the optional fields' bytes, in emission order.
#[verifier::rlimit(100)]
proof fn lemma_open_req_floats(m: OpenReq)
    ensures
        m.spec_serialize().skip(52) == m.client_id.spec_serialize() + (
        m.client_password.spec_serialize() + (m.client_signature.spec_serialize() + (
        m.agent_extension.spec_serialize() + (m.agent_id.spec_serialize() + (
        m.agent_instrument.spec_serialize() + (m.application_path_id.spec_serialize()
            + m.unique_instance_id.spec_serialize())))))),
{
    let e1 = m.client_id.spec_serialize();
    let e2 = m.client_password.spec_serialize();
    let e3 = m.client_signature.spec_serialize();
    let e4 = m.agent_extension.spec_serialize();
    let e5 = m.agent_id.spec_serialize();
    let e6 = m.agent_instrument.spec_serialize();
    let e7 = m.application_path_id.spec_serialize();
    let e8 = m.unique_instance_id.spec_serialize();
    let fx = open_req_fixed(&m);
    let body = open_req_body(&m);
    let hd = mhdr_bytes(body.len() as u32, OPEN_REQ_CODE);
    assert(fx.len() == 44);
    assert(hd.len() == 8);
    crate::byte_codec::lemma_seq_skip_concat_right(hd, body, 52);
    let l1 = fx + e1;
    let l2 = l1 + e2;
    let l3 = l2 + e3;
    let l4 = l3 + e4;
    let l5 = l4 + e5;
    let l6 = l5 + e6;
    let l7 = l6 + e7;
    crate::byte_codec::lemma_seq_skip_concat_left(l7, e8, 44);
    crate::byte_codec::lemma_seq_skip_concat_left(l6, e7, 44);
    crate::byte_codec::lemma_seq_skip_concat_left(l5, e6, 44);
    crate::byte_codec::lemma_seq_skip_concat_left(l4, e5, 44);
    crate::byte_codec::lemma_seq_skip_concat_left(l3, e4, 44);
    crate::byte_codec::lemma_seq_skip_concat_left(l2, e3, 44);
    crate::byte_codec::lemma_seq_skip_concat_left(l1, e2, 44);
    crate::byte_codec::lemma_seq_skip_concat_left(fx, e1, 44);
    crate::byte_codec::lemma_seq_skip_all(fx);
    crate::byte_codec::lemma_seq_empty_left(e1);
    let a2 = e1 + e2;
    let a3 = a2 + e3;
    let a4 = a3 + e4;
    let a5 = a4 + e5;
    let a6 = a5 + e6;
    let a7 = a6 + e7;
    assert(body.skip(44) == a7 + e8);
    crate::byte_codec::lemma_seq_assoc(a6, e7, e8);
    crate::byte_codec::lemma_seq_assoc(a5, e6, e7 + e8);
    crate::byte_codec::lemma_seq_assoc(a4, e5, e6 + (e7 + e8));
    crate::byte_codec::lemma_seq_assoc(a3, e4, e5 + (e6 + (e7 + e8)));
    crate::byte_codec::lemma_seq_assoc(a2, e3, e4 + (e5 + (e6 + (e7 + e8))));
    crate::byte_codec::lemma_seq_assoc(e1, e2, e3 + (e4 + (e5 + (e6 + (e7 + e8)))));
}

/// Round trip: encoding a canonically built OPEN_REQ and decoding the bytes
/// gives the message back, consuming them whole.
#[verifier::spinoff_prover]
#[verifier::rlimit(100)]
pub proof fn lemma_open_req_round_trip(m: OpenReq)
    requires
        open_req_canonical(m),
    ensures
        OpenReq::spec_deserialize(m.spec_serialize()) == Some((m@, Seq::<u8>::empty())),
{
    let b = m.spec_serialize();
    let e1 = m.client_id.spec_serialize();
    let e2 = m.client_password.spec_serialize();
    let e3 = m.client_signature.spec_serialize();
    let e4 = m.agent_extension.spec_serialize();
    let e5 = m.agent_id.spec_serialize();
    let e6 = m.agent_instrument.spec_serialize();
    let e7 = m.application_path_id.spec_serialize();
    let e8 = m.unique_instance_id.spec_serialize();
    lemma_open_req_parse_base(m);
    lemma_open_req_floats(m);
    let base = open_req_base_view(m);
    assert(base.mhdr == m.mhdr);
    let r7 = e8;
    let r6 = e7 + r7;
    let r5 = e6 + r6;
    let r4 = e5 + r5;
    let r3 = e4 + r4;
    let r2 = e3 + r3;
    let r1 = e2 + r2;
    assert(b.skip(52) == e1 + r1);
    lemma_open_req_str_step(base, m.client_id, TagValue::CLIENT_ID_TAG, r1);
    let v1 = open_req_apply_str(base, m.client_id, TagValue::CLIENT_ID_TAG);
    lemma_open_req_str_step(v1, m.client_password, TagValue::CLIENT_PASSWORD_TAG, r2);
    let v2 = open_req_apply_str(v1, m.client_password, TagValue::CLIENT_PASSWORD_TAG);
    lemma_open_req_str_step(v2, m.client_signature, TagValue::CLIENT_SIGNATURE_TAG, r3);
    let v3 = open_req_apply_str(v2, m.client_signature, TagValue::CLIENT_SIGNATURE_TAG);
    lemma_open_req_str_step(v3, m.agent_extension, TagValue::AGENT_EXTENSION_TAG, r4);
    let v4 = open_req_apply_str(v3, m.agent_extension, TagValue::AGENT_EXTENSION_TAG);
    lemma_open_req_str_step(v4, m.agent_id, TagValue::AGENT_ID_TAG, r5);
    let v5 = open_req_apply_str(v4, m.agent_id, TagValue::AGENT_ID_TAG);
    lemma_open_req_str_step(v5, m.agent_instrument, TagValue::AGENT_INSTRUMENT_TAG, r6);
    let v6 = open_req_apply_str(v5, m.agent_instrument, TagValue::AGENT_INSTRUMENT_TAG);
    lemma_open_req_i32_step(v6, m.application_path_id, TagValue::APPLICATION_PATH_ID_TAG, r7);
    let v7 = open_req_apply_i32(v6, m.application_path_id, TagValue::APPLICATION_PATH_ID_TAG);
    assert(r7 =~= e8 + Seq::<u8>::empty());
    lemma_open_req_i32_step(
        v7,
        m.unique_instance_id,
        TagValue::UNIQUE_INSTANCE_ID_TAG,
        Seq::<u8>::empty(),
    );
    let v8 = open_req_apply_i32(v7, m.unique_instance_id, TagValue::UNIQUE_INSTANCE_ID_TAG);
    assert(decode_fields(v8, Seq::<u8>::empty()) == Some(v8));
    assert(v8 == m@);
}

} // verus!
