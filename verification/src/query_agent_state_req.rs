//! The QUERY_AGENT_STATE_REQ message: asks the CTI server for the current
//! state of one agent.
use vstd::prelude::*;
use crate::byte_codec::{
    cstr_bytes, i32_be_bytes, i32_from_be, lemma_parse_cstr_round, lemma_u32_be_round,
    parse_str_body, push_i32_be, push_u32_be, read_i32_be, read_u32_be, u32_be_bytes, u32_from_be,
};
use crate::deserializable::Deserializable;
use crate::floating_field::{
    decode_fields, decode_floating, field_bytes, lemma_decode_fields_field, opt_ff_view,
    str_field_canonical, FloatingApply, FloatingDecode, FloatingField, FloatingFieldView,
    lemma_opt_field_len,
};
use crate::message_type::{
    spec_message_type_from_code, MessageType, QUERY_AGENT_STATE_REQ_CODE,
};
use crate::mhdr::{mhdr_bytes, MHDR};
use crate::serializable::Serializable;
use crate::tag_value::{
    TagValue, AGENT_EXTENSION_TAG_CODE, AGENT_ID_TAG_CODE, AGENT_INSTRUMENT_TAG_CODE,
};

verus! {

#[derive(Debug, Clone)]
pub struct QueryAgentStateReq {
    pub mhdr: MHDR,
    pub invoke_id: u32,
    pub peripheral_id: u32,
    pub mrd_id: i32,
    pub icm_agent_id: i32,
    pub agent_extension: Option<FloatingField<String>>,
    pub agent_id: Option<FloatingField<String>>,
    pub agent_instrument: Option<FloatingField<String>>,
}

/// The mathematical image of a QUERY_AGENT_STATE_REQ.
pub struct QueryAgentStateReqView {
    pub mhdr: MHDR,
    pub invoke_id: u32,
    pub peripheral_id: u32,
    pub mrd_id: i32,
    pub icm_agent_id: i32,
    pub agent_extension: Option<FloatingFieldView<Seq<char>>>,
    pub agent_id: Option<FloatingFieldView<Seq<char>>>,
    pub agent_instrument: Option<FloatingFieldView<Seq<char>>>,
}

impl View for QueryAgentStateReq {
    type V = QueryAgentStateReqView;

    open spec fn view(&self) -> QueryAgentStateReqView {
        QueryAgentStateReqView {
            mhdr: self.mhdr,
            invoke_id: self.invoke_id,
            peripheral_id: self.peripheral_id,
            mrd_id: self.mrd_id,
            icm_agent_id: self.icm_agent_id,
            agent_extension: opt_ff_view(self.agent_extension),
            agent_id: opt_ff_view(self.agent_id),
            agent_instrument: opt_ff_view(self.agent_instrument),
        }
    }
}

/// The body bytes: the fixed prefix, then the optional floating fields in
/// their fixed emission order.
pub open spec fn query_agent_state_req_body(m: &QueryAgentStateReq) -> Seq<u8> {
    u32_be_bytes(m.invoke_id) + u32_be_bytes(m.peripheral_id) + i32_be_bytes(m.mrd_id)
        + i32_be_bytes(m.icm_agent_id) + m.agent_extension.spec_serialize()
        + m.agent_id.spec_serialize() + m.agent_instrument.spec_serialize()
}

impl Serializable for QueryAgentStateReq {
    /// The header is emitted with the computed body length and the
    /// QUERY_AGENT_STATE_REQ code, whatever the `mhdr` field holds.
    open spec fn spec_serialize(&self) -> Seq<u8> {
        mhdr_bytes(
            query_agent_state_req_body(self).len() as u32,
            QUERY_AGENT_STATE_REQ_CODE,
        ) + query_agent_state_req_body(self)
    }

    open spec fn serializable(&self) -> bool {
        self.agent_extension.serializable() && self.agent_id.serializable()
            && self.agent_instrument.serializable()
    }

    fn serialize(self) -> (r: Vec<u8>) {
        proof {
            lemma_opt_field_len(&self.agent_extension);
            lemma_opt_field_len(&self.agent_id);
            lemma_opt_field_len(&self.agent_instrument);
        }
        let mut body: Vec<u8> = Vec::new();
        push_u32_be(&mut body, self.invoke_id);
        push_u32_be(&mut body, self.peripheral_id);
        push_i32_be(&mut body, self.mrd_id);
        push_i32_be(&mut body, self.icm_agent_id);
        let mut f = self.agent_extension.serialize();
        body.append(&mut f);
        let mut f = self.agent_id.serialize();
        body.append(&mut f);
        let mut f = self.agent_instrument.serialize();
        body.append(&mut f);
        proof {
            assert(body@ =~= query_agent_state_req_body(&self));
        }
        let mut out: Vec<u8> = Vec::new();
        push_u32_be(&mut out, body.len() as u32);
        push_u32_be(&mut out, QUERY_AGENT_STATE_REQ_CODE);
        out.append(&mut body);
        proof {
            assert(out@ =~= self.spec_serialize());
        }
        out
    }
}

impl FloatingApply for QueryAgentStateReqView {
    open spec fn apply_field(self, tag: u16, len: u16, body: Seq<u8>) -> Option<Self> {
        if tag == AGENT_EXTENSION_TAG_CODE {
            match parse_str_body(body) {
                None => None,
                Some(s) => Some(
                    QueryAgentStateReqView {
                        agent_extension: Some(
                            FloatingFieldView {
                                tag: TagValue::AGENT_EXTENSION_TAG,
                                length: len,
                                data: s,
                            },
                        ),
                        ..self
                    },
                ),
            }
        } else if tag == AGENT_ID_TAG_CODE {
            match parse_str_body(body) {
                None => None,
                Some(s) => Some(
                    QueryAgentStateReqView {
                        agent_id: Some(
                            FloatingFieldView { tag: TagValue::AGENT_ID_TAG, length: len, data: s },
                        ),
                        ..self
                    },
                ),
            }
        } else if tag == AGENT_INSTRUMENT_TAG_CODE {
            match parse_str_body(body) {
                None => None,
                Some(s) => Some(
                    QueryAgentStateReqView {
                        agent_instrument: Some(
                            FloatingFieldView {
                                tag: TagValue::AGENT_INSTRUMENT_TAG,
                                length: len,
                                data: s,
                            },
                        ),
                        ..self
                    },
                ),
            }
        } else {
            Some(self)
        }
    }
}

impl FloatingDecode for QueryAgentStateReq {
    fn apply_field_exec(self, tag: u16, len: u16, body: Vec<u8>) -> (r: Option<Self>) {
        if tag == AGENT_EXTENSION_TAG_CODE {
            match crate::byte_codec::parse_cstr_body(body) {
                None => None,
                Some(s) => Some(
                    Self {
                        agent_extension: Some(
                            FloatingField {
                                tag: TagValue::AGENT_EXTENSION_TAG,
                                length: len,
                                data: s,
                            },
                        ),
                        ..self
                    },
                ),
            }
        } else if tag == AGENT_ID_TAG_CODE {
            match crate::byte_codec::parse_cstr_body(body) {
                None => None,
                Some(s) => Some(
                    Self {
                        agent_id: Some(
                            FloatingField { tag: TagValue::AGENT_ID_TAG, length: len, data: s },
                        ),
                        ..self
                    },
                ),
            }
        } else if tag == AGENT_INSTRUMENT_TAG_CODE {
            match crate::byte_codec::parse_cstr_body(body) {
                None => None,
                Some(s) => Some(
                    Self {
                        agent_instrument: Some(
                            FloatingField {
                                tag: TagValue::AGENT_INSTRUMENT_TAG,
                                length: len,
                                data: s,
                            },
                        ),
                        ..self
                    },
                ),
            }
        } else {
            Some(self)
        }
    }
}

impl Deserializable for QueryAgentStateReq {
    open spec fn spec_deserialize(b: Seq<u8>) -> Option<(QueryAgentStateReqView, Seq<u8>)> {
        if b.len() < 24 {
            None
        } else {
            let base = QueryAgentStateReqView {
                mhdr: MHDR {
                    length: u32_from_be(b[0], b[1], b[2], b[3]),
                    message_type: spec_message_type_from_code(u32_from_be(b[4], b[5], b[6], b[7])),
                },
                invoke_id: u32_from_be(b[8], b[9], b[10], b[11]),
                peripheral_id: u32_from_be(b[12], b[13], b[14], b[15]),
                mrd_id: i32_from_be(b[16], b[17], b[18], b[19]),
                icm_agent_id: i32_from_be(b[20], b[21], b[22], b[23]),
                agent_extension: None,
                agent_id: None,
                agent_instrument: None,
            };
            match decode_fields(base, b.skip(24)) {
                None => None,
                Some(v) => Some((v, Seq::empty())),
            }
        }
    }

    fn deserialize(buffer: &Vec<u8>) -> (r: Option<(Vec<u8>, Self)>) {
        let n = buffer.len();
        if n < 24 {
            return None;
        }
        let base = QueryAgentStateReq {
            mhdr: MHDR {
                length: read_u32_be(buffer, 0),
                message_type: MessageType::from_code(read_u32_be(buffer, 4)),
            },
            invoke_id: read_u32_be(buffer, 8),
            peripheral_id: read_u32_be(buffer, 12),
            mrd_id: read_i32_be(buffer, 16),
            icm_agent_id: read_i32_be(buffer, 20),
            agent_extension: None,
            agent_id: None,
            agent_instrument: None,
        };
        match decode_floating(base, buffer, 24) {
            None => None,
            Some(v) => {
                let rest: Vec<u8> = Vec::new();
                proof {
                    assert(rest@ =~= Seq::<u8>::empty());
                }
                Some((rest, v))
            },
        }
    }
}

/// A QUERY_AGENT_STATE_REQ as the session engine builds it: canonical header
/// and canonical floating fields.
pub open spec fn query_agent_state_req_canonical(m: QueryAgentStateReq) -> bool {
    &&& m.mhdr == (MHDR {
        length: query_agent_state_req_body(&m).len() as u32,
        message_type: MessageType::QUERY_AGENT_STATE_REQ,
    })
    &&& str_field_canonical(opt_ff_view(m.agent_extension), TagValue::AGENT_EXTENSION_TAG)
    &&& str_field_canonical(opt_ff_view(m.agent_id), TagValue::AGENT_ID_TAG)
    &&& str_field_canonical(opt_ff_view(m.agent_instrument), TagValue::AGENT_INSTRUMENT_TAG)
}

/// One decoding step over an optional canonical string field.
proof fn lemma_qasr_str_step(
    v: QueryAgentStateReqView,
    f: Option<FloatingField<String>>,
    code: u16,
    tag: TagValue,
    rest: Seq<u8>,
)
    requires
        str_field_canonical(opt_ff_view(f), tag),
        code == crate::tag_value::spec_tag_code(tag),
        tag == TagValue::AGENT_EXTENSION_TAG || tag == TagValue::AGENT_ID_TAG || tag
            == TagValue::AGENT_INSTRUMENT_TAG,
    ensures
        decode_fields(v, f.spec_serialize() + rest) == decode_fields(
            qasr_apply_opt(v, f, tag),
            rest,
        ),
{
    match f {
        None => {
            assert(f.spec_serialize() + rest =~= rest);
        },
        Some(ff) => {
            let body = cstr_bytes(ff.data@);
            assert(f.spec_serialize() == field_bytes(code, body));
            lemma_decode_fields_field(v, code, body, rest);
            lemma_parse_cstr_round(ff.data@, Seq::empty());
            assert(body + Seq::<u8>::empty() =~= body);
            assert(parse_str_body(body) == Some(ff.data@));
        },
    }
}

/// The view after an optional field of this message is decoded.
pub open spec fn qasr_apply_opt(
    v: QueryAgentStateReqView,
    f: Option<FloatingField<String>>,
    tag: TagValue,
) -> QueryAgentStateReqView {
    match f {
        None => v,
        Some(ff) => {
            if tag == TagValue::AGENT_EXTENSION_TAG {
                QueryAgentStateReqView { agent_extension: Some(ff@), ..v }
            } else if tag == TagValue::AGENT_ID_TAG {
                QueryAgentStateReqView { agent_id: Some(ff@), ..v }
            } else {
                QueryAgentStateReqView { agent_instrument: Some(ff@), ..v }
            }
        },
    }
}

/// Round trip: encoding a canonically built QUERY_AGENT_STATE_REQ and
/// decoding the bytes gives the message back, consuming them whole.
#[verifier::rlimit(60)]
pub proof fn lemma_query_agent_state_req_round_trip(m: QueryAgentStateReq)
    requires
        query_agent_state_req_canonical(m),
    ensures
        QueryAgentStateReq::spec_deserialize(m.spec_serialize()) == Some(
            (m@, Seq::<u8>::empty()),
        ),
{
    let body = query_agent_state_req_body(&m);
    let b = m.spec_serialize();
    let e1 = m.agent_extension.spec_serialize();
    let e2 = m.agent_id.spec_serialize();
    let e3 = m.agent_instrument.spec_serialize();
    assert(b.len() >= 24);
    let len32 = body.len() as u32;
    lemma_u32_be_round(len32);
    lemma_u32_be_round(QUERY_AGENT_STATE_REQ_CODE);
    lemma_u32_be_round(m.invoke_id);
    lemma_u32_be_round(m.peripheral_id);
    crate::byte_codec::lemma_i32_be_round(m.mrd_id);
    crate::byte_codec::lemma_i32_be_round(m.icm_agent_id);
    assert forall|k: int| 0 <= k < 4 implies b[k] == u32_be_bytes(len32)[k] by {}
    assert forall|k: int| 0 <= k < 4 implies b[4 + k] == u32_be_bytes(
        QUERY_AGENT_STATE_REQ_CODE,
    )[k] by {}
    assert forall|k: int| 0 <= k < 4 implies b[8 + k] == u32_be_bytes(m.invoke_id)[k] by {}
    assert forall|k: int| 0 <= k < 4 implies b[12 + k] == u32_be_bytes(m.peripheral_id)[k] by {}
    assert forall|k: int| 0 <= k < 4 implies b[16 + k] == i32_be_bytes(m.mrd_id)[k] by {}
    assert forall|k: int| 0 <= k < 4 implies b[20 + k] == i32_be_bytes(m.icm_agent_id)[k] by {}
    let base = QueryAgentStateReqView {
        mhdr: MHDR {
            length: u32_from_be(b[0], b[1], b[2], b[3]),
            message_type: spec_message_type_from_code(u32_from_be(b[4], b[5], b[6], b[7])),
        },
        invoke_id: u32_from_be(b[8], b[9], b[10], b[11]),
        peripheral_id: u32_from_be(b[12], b[13], b[14], b[15]),
        mrd_id: i32_from_be(b[16], b[17], b[18], b[19]),
        icm_agent_id: i32_from_be(b[20], b[21], b[22], b[23]),
        agent_extension: None,
        agent_id: None,
        agent_instrument: None,
    };
    assert(base.mhdr == m.mhdr);
    assert(b.skip(24) =~= e1 + (e2 + (e3 + Seq::<u8>::empty())));
    lemma_qasr_str_step(
        base,
        m.agent_extension,
        AGENT_EXTENSION_TAG_CODE,
        TagValue::AGENT_EXTENSION_TAG,
        e2 + (e3 + Seq::<u8>::empty()),
    );
    let v1 = qasr_apply_opt(base, m.agent_extension, TagValue::AGENT_EXTENSION_TAG);
    lemma_qasr_str_step(
        v1,
        m.agent_id,
        AGENT_ID_TAG_CODE,
        TagValue::AGENT_ID_TAG,
        e3 + Seq::<u8>::empty(),
    );
    let v2 = qasr_apply_opt(v1, m.agent_id, TagValue::AGENT_ID_TAG);
    lemma_qasr_str_step(
        v2,
        m.agent_instrument,
        AGENT_INSTRUMENT_TAG_CODE,
        TagValue::AGENT_INSTRUMENT_TAG,
        Seq::<u8>::empty(),
    );
    let v3 = qasr_apply_opt(v2, m.agent_instrument, TagValue::AGENT_INSTRUMENT_TAG);
    assert(decode_fields(v3, Seq::<u8>::empty()) == Some(v3));
    assert(v3 == m@);
}

} // verus!
