//! The CTI message-type registry.  An unknown code decodes to a sentinel
//! carrying the raw value and is passed through untouched.
use vstd::prelude::*;

verus! {

#[allow(non_camel_case_types)]
#[derive(Debug, Clone, Copy, PartialEq, Eq, Structural)]
pub enum MessageType {
    OPEN_REQ,
    OPEN_CONF,
    HEARTBEAT_REQ,
    HEARTBEAT_CONF,
    AGENT_STATE_EVENT,
    QUERY_AGENT_STATE_REQ,
    QUERY_AGENT_STATE_CONF,
    AGENT_TEAM_CONFIG_EVENT,
    Unknown(u32),
}

pub const OPEN_REQ_CODE: u32 = 3;

pub const OPEN_CONF_CODE: u32 = 4;

pub const HEARTBEAT_REQ_CODE: u32 = 5;

pub const HEARTBEAT_CONF_CODE: u32 = 6;

pub const AGENT_STATE_EVENT_CODE: u32 = 30;

pub const QUERY_AGENT_STATE_REQ_CODE: u32 = 38;

pub const QUERY_AGENT_STATE_CONF_CODE: u32 = 39;

pub const AGENT_TEAM_CONFIG_EVENT_CODE: u32 = 243;

/// The wire code of a message type.
pub open spec fn spec_message_type_code(mt: MessageType) -> u32 {
    match mt {
        MessageType::OPEN_REQ => OPEN_REQ_CODE,
        MessageType::OPEN_CONF => OPEN_CONF_CODE,
        MessageType::HEARTBEAT_REQ => HEARTBEAT_REQ_CODE,
        MessageType::HEARTBEAT_CONF => HEARTBEAT_CONF_CODE,
        MessageType::AGENT_STATE_EVENT => AGENT_STATE_EVENT_CODE,
        MessageType::QUERY_AGENT_STATE_REQ => QUERY_AGENT_STATE_REQ_CODE,
        MessageType::QUERY_AGENT_STATE_CONF => QUERY_AGENT_STATE_CONF_CODE,
        MessageType::AGENT_TEAM_CONFIG_EVENT => AGENT_TEAM_CONFIG_EVENT_CODE,
        MessageType::Unknown(raw) => raw,
    }
}

/// The message type a wire code decodes to.
pub open spec fn spec_message_type_from_code(code: u32) -> MessageType {
    if code == OPEN_REQ_CODE {
        MessageType::OPEN_REQ
    } else if code == OPEN_CONF_CODE {
        MessageType::OPEN_CONF
    } else if code == HEARTBEAT_REQ_CODE {
        MessageType::HEARTBEAT_REQ
    } else if code == HEARTBEAT_CONF_CODE {
        MessageType::HEARTBEAT_CONF
    } else if code == AGENT_STATE_EVENT_CODE {
        MessageType::AGENT_STATE_EVENT
    } else if code == QUERY_AGENT_STATE_REQ_CODE {
        MessageType::QUERY_AGENT_STATE_REQ
    } else if code == QUERY_AGENT_STATE_CONF_CODE {
        MessageType::QUERY_AGENT_STATE_CONF
    } else if code == AGENT_TEAM_CONFIG_EVENT_CODE {
        MessageType::AGENT_TEAM_CONFIG_EVENT
    } else {
        MessageType::Unknown(code)
    }
}

/// A message type as decoding produces it: the sentinel never shadows a
/// registered code.
pub open spec fn message_type_wf(mt: MessageType) -> bool {
    mt matches MessageType::Unknown(raw) ==> spec_message_type_from_code(raw)
        == MessageType::Unknown(raw)
}

pub proof fn lemma_message_type_code_round(mt: MessageType)
    requires
        message_type_wf(mt),
    ensures
        spec_message_type_from_code(spec_message_type_code(mt)) == mt,
{
}

impl MessageType {
    pub fn code(&self) -> (r: u32)
        ensures
            r == spec_message_type_code(*self),
    {
        match *self {
            MessageType::OPEN_REQ => OPEN_REQ_CODE,
            MessageType::OPEN_CONF => OPEN_CONF_CODE,
            MessageType::HEARTBEAT_REQ => HEARTBEAT_REQ_CODE,
            MessageType::HEARTBEAT_CONF => HEARTBEAT_CONF_CODE,
            MessageType::AGENT_STATE_EVENT => AGENT_STATE_EVENT_CODE,
            MessageType::QUERY_AGENT_STATE_REQ => QUERY_AGENT_STATE_REQ_CODE,
            MessageType::QUERY_AGENT_STATE_CONF => QUERY_AGENT_STATE_CONF_CODE,
            MessageType::AGENT_TEAM_CONFIG_EVENT => AGENT_TEAM_CONFIG_EVENT_CODE,
            MessageType::Unknown(raw) => raw,
        }
    }

    pub fn from_code(code: u32) -> (r: MessageType)
        ensures
            r == spec_message_type_from_code(code),
            message_type_wf(r),
    {
        if code == OPEN_REQ_CODE {
            MessageType::OPEN_REQ
        } else if code == OPEN_CONF_CODE {
            MessageType::OPEN_CONF
        } else if code == HEARTBEAT_CONF_CODE {
            MessageType::HEARTBEAT_CONF
        } else if code == HEARTBEAT_REQ_CODE {
            MessageType::HEARTBEAT_REQ
        } else if code == AGENT_STATE_EVENT_CODE {
            MessageType::AGENT_STATE_EVENT
        } else if code == QUERY_AGENT_STATE_REQ_CODE {
            MessageType::QUERY_AGENT_STATE_REQ
        } else if code == QUERY_AGENT_STATE_CONF_CODE {
            MessageType::QUERY_AGENT_STATE_CONF
        } else if code == AGENT_TEAM_CONFIG_EVENT_CODE {
            MessageType::AGENT_TEAM_CONFIG_EVENT
        } else {
            MessageType::Unknown(code)
        }
    }
}

} // verus!
