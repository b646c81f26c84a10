//! The closed registry of floating-field tags.  A tag outside the registry
//! decodes to a sentinel carrying the raw value; its field is skipped over
//! by its declared length.
use vstd::prelude::*;

verus! {

#[allow(non_camel_case_types)]
#[derive(Debug, Clone, Copy, PartialEq, Eq, Structural)]
pub enum TagValue {
    CLIENT_ID_TAG,
    CLIENT_PASSWORD_TAG,
    CLIENT_SIGNATURE_TAG,
    AGENT_EXTENSION_TAG,
    AGENT_ID_TAG,
    AGENT_INSTRUMENT_TAG,
    CTI_CLIENT_SIGNATURE_TAG,
    SKILL_GROUP_NUMBER_TAG,
    SKILL_GROUP_ID_TAG,
    SKILL_GROUP_PRIORITY_TAG,
    SKILL_GROUP_STATE_TAG,
    APPLICATION_PATH_ID_TAG,
    UNIQUE_INSTANCE_ID_TAG,
    DURATION_TAG,
    NEXT_AGENT_STATE_TAG,
    NUM_PERIPHERALS_TAG,
    ACTIVE_CONN_DEVID_TAG,
    PERIPHERAL_ID_TAG_V11,
    MULTI_LINE_AGENT_CONTROL_TAG,
    DIRECTION_TAG,
    MAX_BEYOND_TASK_LIMIT_TAG,
    AGENT_TEAM_NAME_TAG,
    ATC_AGENT_ID_TAG,
    AGENT_FLAGS_TAG,
    ATC_AGENT_STATE_TAG,
    ATC_AGENT_STATE_DURATION_TAG,
    INTERNAL_AGENT_STATE_TAG,
    Unknown(u16),
}

pub const CLIENT_ID_TAG_CODE: u16 = 1;

pub const CLIENT_PASSWORD_TAG_CODE: u16 = 2;

pub const CLIENT_SIGNATURE_TAG_CODE: u16 = 23;

pub const AGENT_EXTENSION_TAG_CODE: u16 = 4;

pub const AGENT_ID_TAG_CODE: u16 = 5;

pub const AGENT_INSTRUMENT_TAG_CODE: u16 = 6;

pub const CTI_CLIENT_SIGNATURE_TAG_CODE: u16 = 60;

pub const SKILL_GROUP_NUMBER_TAG_CODE: u16 = 81;

pub const SKILL_GROUP_ID_TAG_CODE: u16 = 82;

pub const SKILL_GROUP_PRIORITY_TAG_CODE: u16 = 83;

pub const SKILL_GROUP_STATE_TAG_CODE: u16 = 84;

pub const APPLICATION_PATH_ID_TAG_CODE: u16 = 97;

pub const UNIQUE_INSTANCE_ID_TAG_CODE: u16 = 150;

pub const DURATION_TAG_CODE: u16 = 151;

pub const NEXT_AGENT_STATE_TAG_CODE: u16 = 152;

pub const NUM_PERIPHERALS_TAG_CODE: u16 = 156;

pub const ACTIVE_CONN_DEVID_TAG_CODE: u16 = 179;

pub const PERIPHERAL_ID_TAG_V11_CODE: u16 = 215;

pub const MULTI_LINE_AGENT_CONTROL_TAG_CODE: u16 = 224;

pub const DIRECTION_TAG_CODE: u16 = 232;

pub const MAX_BEYOND_TASK_LIMIT_TAG_CODE: u16 = 242;

pub const AGENT_TEAM_NAME_TAG_CODE: u16 = 244;

pub const ATC_AGENT_ID_TAG_CODE: u16 = 245;

pub const AGENT_FLAGS_TAG_CODE: u16 = 246;

pub const ATC_AGENT_STATE_TAG_CODE: u16 = 248;

pub const ATC_AGENT_STATE_DURATION_TAG_CODE: u16 = 249;

pub const INTERNAL_AGENT_STATE_TAG_CODE: u16 = 250;

/// The wire code of a tag.
pub open spec fn spec_tag_code(t: TagValue) -> u16 {
    match t {
        TagValue::CLIENT_ID_TAG => CLIENT_ID_TAG_CODE,
        TagValue::CLIENT_PASSWORD_TAG => CLIENT_PASSWORD_TAG_CODE,
        TagValue::CLIENT_SIGNATURE_TAG => CLIENT_SIGNATURE_TAG_CODE,
        TagValue::AGENT_EXTENSION_TAG => AGENT_EXTENSION_TAG_CODE,
        TagValue::AGENT_ID_TAG => AGENT_ID_TAG_CODE,
        TagValue::AGENT_INSTRUMENT_TAG => AGENT_INSTRUMENT_TAG_CODE,
        TagValue::CTI_CLIENT_SIGNATURE_TAG => CTI_CLIENT_SIGNATURE_TAG_CODE,
        TagValue::SKILL_GROUP_NUMBER_TAG => SKILL_GROUP_NUMBER_TAG_CODE,
        TagValue::SKILL_GROUP_ID_TAG => SKILL_GROUP_ID_TAG_CODE,
        TagValue::SKILL_GROUP_PRIORITY_TAG => SKILL_GROUP_PRIORITY_TAG_CODE,
        TagValue::SKILL_GROUP_STATE_TAG => SKILL_GROUP_STATE_TAG_CODE,
        TagValue::APPLICATION_PATH_ID_TAG => APPLICATION_PATH_ID_TAG_CODE,
        TagValue::UNIQUE_INSTANCE_ID_TAG => UNIQUE_INSTANCE_ID_TAG_CODE,
        TagValue::DURATION_TAG => DURATION_TAG_CODE,
        TagValue::NEXT_AGENT_STATE_TAG => NEXT_AGENT_STATE_TAG_CODE,
        TagValue::NUM_PERIPHERALS_TAG => NUM_PERIPHERALS_TAG_CODE,
        TagValue::ACTIVE_CONN_DEVID_TAG => ACTIVE_CONN_DEVID_TAG_CODE,
        TagValue::PERIPHERAL_ID_TAG_V11 => PERIPHERAL_ID_TAG_V11_CODE,
        TagValue::MULTI_LINE_AGENT_CONTROL_TAG => MULTI_LINE_AGENT_CONTROL_TAG_CODE,
        TagValue::DIRECTION_TAG => DIRECTION_TAG_CODE,
        TagValue::MAX_BEYOND_TASK_LIMIT_TAG => MAX_BEYOND_TASK_LIMIT_TAG_CODE,
        TagValue::AGENT_TEAM_NAME_TAG => AGENT_TEAM_NAME_TAG_CODE,
        TagValue::ATC_AGENT_ID_TAG => ATC_AGENT_ID_TAG_CODE,
        TagValue::AGENT_FLAGS_TAG => AGENT_FLAGS_TAG_CODE,
        TagValue::ATC_AGENT_STATE_TAG => ATC_AGENT_STATE_TAG_CODE,
        TagValue::ATC_AGENT_STATE_DURATION_TAG => ATC_AGENT_STATE_DURATION_TAG_CODE,
        TagValue::INTERNAL_AGENT_STATE_TAG => INTERNAL_AGENT_STATE_TAG_CODE,
        TagValue::Unknown(raw) => raw,
    }
}

impl TagValue {
    pub fn code(&self) -> (r: u16)
        ensures
            r == spec_tag_code(*self),
    {
        match *self {
            TagValue::CLIENT_ID_TAG => CLIENT_ID_TAG_CODE,
            TagValue::CLIENT_PASSWORD_TAG => CLIENT_PASSWORD_TAG_CODE,
            TagValue::CLIENT_SIGNATURE_TAG => CLIENT_SIGNATURE_TAG_CODE,
            TagValue::AGENT_EXTENSION_TAG => AGENT_EXTENSION_TAG_CODE,
            TagValue::AGENT_ID_TAG => AGENT_ID_TAG_CODE,
            TagValue::AGENT_INSTRUMENT_TAG => AGENT_INSTRUMENT_TAG_CODE,
            TagValue::CTI_CLIENT_SIGNATURE_TAG => CTI_CLIENT_SIGNATURE_TAG_CODE,
            TagValue::SKILL_GROUP_NUMBER_TAG => SKILL_GROUP_NUMBER_TAG_CODE,
            TagValue::SKILL_GROUP_ID_TAG => SKILL_GROUP_ID_TAG_CODE,
            TagValue::SKILL_GROUP_PRIORITY_TAG => SKILL_GROUP_PRIORITY_TAG_CODE,
            TagValue::SKILL_GROUP_STATE_TAG => SKILL_GROUP_STATE_TAG_CODE,
            TagValue::APPLICATION_PATH_ID_TAG => APPLICATION_PATH_ID_TAG_CODE,
            TagValue::UNIQUE_INSTANCE_ID_TAG => UNIQUE_INSTANCE_ID_TAG_CODE,
            TagValue::DURATION_TAG => DURATION_TAG_CODE,
            TagValue::NEXT_AGENT_STATE_TAG => NEXT_AGENT_STATE_TAG_CODE,
            TagValue::NUM_PERIPHERALS_TAG => NUM_PERIPHERALS_TAG_CODE,
            TagValue::ACTIVE_CONN_DEVID_TAG => ACTIVE_CONN_DEVID_TAG_CODE,
            TagValue::PERIPHERAL_ID_TAG_V11 => PERIPHERAL_ID_TAG_V11_CODE,
            TagValue::MULTI_LINE_AGENT_CONTROL_TAG => MULTI_LINE_AGENT_CONTROL_TAG_CODE,
            TagValue::DIRECTION_TAG => DIRECTION_TAG_CODE,
            TagValue::MAX_BEYOND_TASK_LIMIT_TAG => MAX_BEYOND_TASK_LIMIT_TAG_CODE,
            TagValue::AGENT_TEAM_NAME_TAG => AGENT_TEAM_NAME_TAG_CODE,
            TagValue::ATC_AGENT_ID_TAG => ATC_AGENT_ID_TAG_CODE,
            TagValue::AGENT_FLAGS_TAG => AGENT_FLAGS_TAG_CODE,
            TagValue::ATC_AGENT_STATE_TAG => ATC_AGENT_STATE_TAG_CODE,
            TagValue::ATC_AGENT_STATE_DURATION_TAG => ATC_AGENT_STATE_DURATION_TAG_CODE,
            TagValue::INTERNAL_AGENT_STATE_TAG => INTERNAL_AGENT_STATE_TAG_CODE,
            TagValue::Unknown(raw) => raw,
        }
    }
}

} // verus!
