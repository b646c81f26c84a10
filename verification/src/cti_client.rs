//! The session engine's decision core: which side it speaks to, the invoke-id
//! counter, and the exact outbound messages it builds.  The socket work
//! around it — connecting, reading, writing, timers — stays outside the
//! library and hands bytes in and out.
use vstd::prelude::*;
use vstd::utf8::encode_utf8;
use crate::floating_field::{opt_ff_view, str_field_canonical, FloatingField};
use crate::heartbeat_req::HeartBeatReq;
use crate::message_type::MessageType;
use crate::mhdr::MHDR;
use crate::open_req::{open_req_body, open_req_canonical, OpenReq};
use crate::query_agent_state_req::{
    query_agent_state_req_body, query_agent_state_req_canonical, QueryAgentStateReq,
};
use crate::serializable::Serializable;
use crate::tag_value::TagValue;

verus! {

/// A string small enough for one floating field, with no NUL inside: the
/// encoded form, text plus terminator, must fit the 16-bit length.
pub open spec fn field_text_ok(s: Seq<char>) -> bool {
    encode_utf8(s).len() + 1 <= 0xFFFF && (forall|i: int| 0 <= i < s.len() ==> s[i] != '\u{0}')
}

/// The protocol version spoken upstream.
pub const CTI_VERSION: u32 = 24;

/// The idle timeout requested in the handshake.
pub const CTI_IDLE_TIMEOUT: u32 = 100;

/// The service mask requested in the handshake.
pub const CTI_SERVICES_REQUESTED: u32 = 0x8000_0094;

/// All call events.
pub const CTI_CALL_MSG_MASK: u32 = 0xFFFF_FFFF;

/// All agent states.
pub const CTI_AGENT_STATE_MASK: u32 = 0x3FFF;

pub struct CTIClient {
    is_active: bool,
    invoke_id: u32,
}

/// The mathematical image of the session core.
pub struct CTIClientView {
    pub is_active: bool,
    pub invoke_id: u32,
}

impl View for CTIClient {
    type V = CTIClientView;

    closed spec fn view(&self) -> CTIClientView {
        CTIClientView { is_active: self.is_active, invoke_id: self.invoke_id }
    }
}

/// The invoke id that follows `v`, wrapping at the 32-bit limit.
pub open spec fn next_invoke_id(v: u32) -> u32 {
    if v == 0xFFFF_FFFF {
        0
    } else {
        (v + 1) as u32
    }
}

impl CTIClient {
    /// A fresh session core for the given side; the first invoke id handed
    /// out will be 1.
    pub fn new(is_active: bool) -> (r: Self)
        ensures
            r@ == (CTIClientView { is_active, invoke_id: 0 }),
    {
        CTIClient { is_active, invoke_id: 0 }
    }

    /// Which side this session speaks to: true for side A.
    pub fn is_active(&self) -> (r: bool)
        ensures
            r == self@.is_active,
    {
        self.is_active
    }

    /// Increments the invoke id and returns the incremented value, so that
    /// the first id ever used is 1.
    pub fn get_invoke_id(&mut self) -> (r: u32)
        ensures
            final(self)@ == (CTIClientView {
                invoke_id: next_invoke_id(old(self)@.invoke_id),
                ..old(self)@
            }),
            r == final(self)@.invoke_id,
    {
        self.invoke_id = self.invoke_id.wrapping_add(1);
        self.invoke_id
    }

    /// Builds the OPEN_REQ for the handshake: protocol version 24, idle
    /// timeout 100, the configured peripheral, all call events and agent
    /// states, a fresh invoke id, and the client's credentials as floating
    /// fields.  The result is canonical, so its bytes decode back to it.
    pub fn make_open_req(
        &mut self,
        peripheral_id: u32,
        client_id: String,
        client_password: String,
    ) -> (r: OpenReq)
        requires
            field_text_ok(client_id@),
            field_text_ok(client_password@),
        ensures
            final(self)@ == (CTIClientView {
                invoke_id: next_invoke_id(old(self)@.invoke_id),
                ..old(self)@
            }),
            r.invoke_id == final(self)@.invoke_id,
            r.version_number == CTI_VERSION,
            r.idle_timeout == CTI_IDLE_TIMEOUT,
            r.peripheral_id == peripheral_id,
            r.services_requested == CTI_SERVICES_REQUESTED,
            r.call_msg_mask == CTI_CALL_MSG_MASK,
            r.agent_state_mask == CTI_AGENT_STATE_MASK,
            r.config_msg_mask == 0 && r.reserved1 == 0 && r.reserved2 == 0 && r.reserved3 == 0,
            r.client_id matches Some(f) && f.data@ == client_id@ && f.tag
                == TagValue::CLIENT_ID_TAG,
            r.client_password matches Some(f) && f.data@ == client_password@ && f.tag
                == TagValue::CLIENT_PASSWORD_TAG,
            r.client_signature is None && r.agent_extension is None && r.agent_id is None
                && r.agent_instrument is None && r.application_path_id is None
                && r.unique_instance_id is None,
            open_req_canonical(r),
            r.serializable(),
    {
        let invoke_id = self.get_invoke_id();
        let id_len = client_id.as_str().len() + 1;
        let pw_len = client_password.as_str().len() + 1;
        let mut r = OpenReq {
            mhdr: MHDR { length: 0, message_type: MessageType::OPEN_REQ },
            invoke_id,
            version_number: CTI_VERSION,
            idle_timeout: CTI_IDLE_TIMEOUT,
            peripheral_id,
            services_requested: CTI_SERVICES_REQUESTED,
            call_msg_mask: CTI_CALL_MSG_MASK,
            agent_state_mask: CTI_AGENT_STATE_MASK,
            config_msg_mask: 0,
            reserved1: 0,
            reserved2: 0,
            reserved3: 0,
            client_id: Some(
                FloatingField {
                    tag: TagValue::CLIENT_ID_TAG,
                    length: id_len as u16,
                    data: client_id,
                },
            ),
            client_password: Some(
                FloatingField {
                    tag: TagValue::CLIENT_PASSWORD_TAG,
                    length: pw_len as u16,
                    data: client_password,
                },
            ),
            client_signature: None,
            agent_extension: None,
            agent_id: None,
            agent_instrument: None,
            application_path_id: None,
            unique_instance_id: None,
        };
        proof {
            assert(open_req_body(&r).len() <= 52 + 2 * (0xFFFF + 4)) by {
                crate::floating_field::lemma_opt_field_len(&r.client_id);
                crate::floating_field::lemma_opt_field_len(&r.client_password);
            }
        }
        let ghost body_len = open_req_body(&r).len() as u32;
        r.mhdr = MHDR {
            length: self.body_len_of_open_req(&r),
            message_type: MessageType::OPEN_REQ,
        };
        r
    }

    /// Computes the encoded body length of an OPEN_REQ under construction.
    fn body_len_of_open_req(&self, r: &OpenReq) -> (n: u32)
        requires
            r.serializable(),
            open_req_body(r).len() <= 0xFFFF_FFFF,
        ensures
            n == open_req_body(r).len() as u32,
    {
        let mut n: u64 = 44;
        n = n + Self::opt_str_field_len(&r.client_id);
        n = n + Self::opt_str_field_len(&r.client_password);
        n = n + Self::opt_str_field_len(&r.client_signature);
        n = n + Self::opt_str_field_len(&r.agent_extension);
        n = n + Self::opt_str_field_len(&r.agent_id);
        n = n + Self::opt_str_field_len(&r.agent_instrument);
        n = n + Self::opt_i32_field_len(&r.application_path_id);
        n = n + Self::opt_i32_field_len(&r.unique_instance_id);
        n as u32
    }

    /// The encoded size of an optional string field.
    fn opt_str_field_len(f: &Option<FloatingField<String>>) -> (n: u64)
        requires
            f.serializable(),
        ensures
            n == f.spec_serialize().len(),
            n <= 0xFFFF + 4,
    {
        match f {
            None => 0,
            Some(ff) => 4 + (ff.data.as_str().len() as u64) + 1,
        }
    }

    /// The encoded size of an optional 32-bit field.
    fn opt_i32_field_len(f: &Option<FloatingField<i32>>) -> (n: u64)
        ensures
            n == f.spec_serialize().len(),
            n <= 8,
    {
        match f {
            None => 0,
            Some(_) => 8,
        }
    }

    /// Builds a HEARTBEAT_REQ with a fresh invoke id.
    pub fn make_heartbeat_req(&mut self) -> (r: HeartBeatReq)
        ensures
            final(self)@ == (CTIClientView {
                invoke_id: next_invoke_id(old(self)@.invoke_id),
                ..old(self)@
            }),
            r == (HeartBeatReq {
                mhdr: MHDR { length: 4, message_type: MessageType::HEARTBEAT_REQ },
                invoke_id: final(self)@.invoke_id,
            }),
    {
        let invoke_id = self.get_invoke_id();
        HeartBeatReq { mhdr: MHDR { length: 4, message_type: MessageType::HEARTBEAT_REQ }, invoke_id }
    }

    /// Builds the QUERY_AGENT_STATE_REQ for one agent: a fresh invoke id,
    /// the peripheral, and the agent id as a floating field.  The result is
    /// canonical, so its bytes decode back to it.
    pub fn make_query_agent_state_req(&mut self, peripheral_id: u32, agent_id: String) -> (r:
        QueryAgentStateReq)
        requires
            field_text_ok(agent_id@),
        ensures
            final(self)@ == (CTIClientView {
                invoke_id: next_invoke_id(old(self)@.invoke_id),
                ..old(self)@
            }),
            r.invoke_id == final(self)@.invoke_id,
            r.peripheral_id == peripheral_id,
            r.mrd_id == 0 && r.icm_agent_id == 0,
            r.agent_id matches Some(f) && f.data@ == agent_id@ && f.tag == TagValue::AGENT_ID_TAG,
            r.agent_extension is None && r.agent_instrument is None,
            query_agent_state_req_canonical(r),
            r.serializable(),
    {
        let invoke_id = self.get_invoke_id();
        let id_len = agent_id.as_str().len() + 1;
        let mut r = QueryAgentStateReq {
            mhdr: MHDR { length: 0, message_type: MessageType::QUERY_AGENT_STATE_REQ },
            invoke_id,
            peripheral_id,
            mrd_id: 0,
            icm_agent_id: 0,
            agent_extension: None,
            agent_id: Some(
                FloatingField { tag: TagValue::AGENT_ID_TAG, length: id_len as u16, data: agent_id },
            ),
            agent_instrument: None,
        };
        let body_len = 16 + id_len as u64 + 4;
        proof {
            assert(query_agent_state_req_body(&r).len() == body_len);
        }
        r.mhdr = MHDR {
            length: body_len as u32,
            message_type: MessageType::QUERY_AGENT_STATE_REQ,
        };
        r
    }
}

} // verus!
