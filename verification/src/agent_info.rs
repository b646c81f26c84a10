//! The projected state of one agent.  The state-conditional setters consult
//! the already-updated agent state to decide whether a value is retained or
//! cleared, so callers set `agent_state` first.
use vstd::prelude::*;

verus! {

/// Agent states with retention rules attached to them.
pub const AGENT_STATE_LOGOUT: u16 = 1;

pub const AGENT_STATE_NOT_READY: u16 = 2;

pub const AGENT_STATE_TALKING: u16 = 4;

pub const AGENT_STATE_RESERVED: u16 = 7;

pub const AGENT_STATE_WORK_NOT_READY: u16 = 8;

pub const AGENT_STATE_UNKNOWN: u16 = 9;

pub const AGENT_STATE_HOLD: u16 = 10;

#[derive(Debug)]
pub struct AgentInfo {
    icm_agent_id: i32,
    agent_id: String,
    agent_state: u16,
    state_duration: u64,
    reason_code: u16,
    skill_group_id: u16,
    direction: u32,
    agent_extension: String,
}

/// The mathematical image of an agent's projected state.
pub struct AgentInfoView {
    pub icm_agent_id: i32,
    pub agent_id: Seq<char>,
    pub agent_state: u16,
    pub state_duration: u64,
    pub reason_code: u16,
    pub skill_group_id: u16,
    pub direction: u32,
    pub agent_extension: Seq<char>,
}

impl View for AgentInfo {
    type V = AgentInfoView;

    closed spec fn view(&self) -> AgentInfoView {
        AgentInfoView {
            icm_agent_id: self.icm_agent_id,
            agent_id: self.agent_id@,
            agent_state: self.agent_state,
            state_duration: self.state_duration,
            reason_code: self.reason_code,
            skill_group_id: self.skill_group_id,
            direction: self.direction,
            agent_extension: self.agent_extension@,
        }
    }
}

impl AgentInfoView {
    /// `reason_code` is retained only in LOGOUT and NOT_READY.
    pub open spec fn reason_code_wf(self) -> bool {
        !(self.agent_state == AGENT_STATE_LOGOUT || self.agent_state == AGENT_STATE_NOT_READY)
            ==> self.reason_code == 0
    }

    /// `skill_group_id` is retained only in TALKING and HOLD.
    pub open spec fn skill_group_wf(self) -> bool {
        !(self.agent_state == AGENT_STATE_TALKING || self.agent_state == AGENT_STATE_HOLD)
            ==> self.skill_group_id == 0
    }

    /// `direction` is retained only in TALKING, RESERVED, WORK_NOT_READY
    /// and HOLD.
    pub open spec fn direction_wf(self) -> bool {
        !(self.agent_state == AGENT_STATE_TALKING || self.agent_state == AGENT_STATE_RESERVED
            || self.agent_state == AGENT_STATE_WORK_NOT_READY || self.agent_state
            == AGENT_STATE_HOLD) ==> self.direction == 0
    }

    /// `agent_extension` is cleared in LOGOUT and UNKNOWN.
    pub open spec fn extension_wf(self) -> bool {
        (self.agent_state == AGENT_STATE_LOGOUT || self.agent_state == AGENT_STATE_UNKNOWN)
            ==> self.agent_extension == Seq::<char>::empty()
    }

    /// All four retention invariants together.
    pub open spec fn wf(self) -> bool {
        self.reason_code_wf() && self.skill_group_wf() && self.direction_wf()
            && self.extension_wf()
    }
}

impl Clone for AgentInfo {
    fn clone(&self) -> (res: Self)
        ensures
            res@ == self@,
    {
        AgentInfo {
            icm_agent_id: self.icm_agent_id,
            agent_id: self.agent_id.clone(),
            agent_state: self.agent_state,
            state_duration: self.state_duration,
            reason_code: self.reason_code,
            skill_group_id: self.skill_group_id,
            direction: self.direction,
            agent_extension: self.agent_extension.clone(),
        }
    }
}

/// Relies on std::time::SystemTime: the number of whole seconds between the
/// system clock's current reading and the Unix epoch (zero if the clock
/// reads earlier than the epoch).  Nothing is promised of the value.
#[verifier::external_body]
fn now_unix_seconds() -> u64 {
    std::time::SystemTime::now()
        .duration_since(std::time::UNIX_EPOCH)
        .map(|d| d.as_secs())
        .unwrap_or(0)
}

impl AgentInfo {
    /// A fresh record: the given agent id, every counter zero, no extension.
    pub fn new(agent_id: String) -> (r: Self)
        ensures
            r@ == (AgentInfoView {
                icm_agent_id: 0,
                agent_id: agent_id@,
                agent_state: 0,
                state_duration: 0,
                reason_code: 0,
                skill_group_id: 0,
                direction: 0,
                agent_extension: Seq::<char>::empty(),
            }),
            r@.wf(),
    {
        AgentInfo {
            icm_agent_id: 0,
            agent_id,
            agent_state: 0,
            state_duration: 0,
            reason_code: 0,
            skill_group_id: 0,
            direction: 0,
            agent_extension: String::new(),
        }
    }

    pub fn agent_id(&self) -> (r: &String)
        ensures
            r@ == self@.agent_id,
    {
        &self.agent_id
    }

    pub fn icm_agent_id(&self) -> (r: i32)
        ensures
            r == self@.icm_agent_id,
    {
        self.icm_agent_id
    }

    pub fn agent_state(&self) -> (r: u16)
        ensures
            r == self@.agent_state,
    {
        self.agent_state
    }

    pub fn state_duration(&self) -> (r: u64)
        ensures
            r == self@.state_duration,
    {
        self.state_duration
    }

    pub fn reason_code(&self) -> (r: u16)
        ensures
            r == self@.reason_code,
    {
        self.reason_code
    }

    pub fn skill_group_id(&self) -> (r: u16)
        ensures
            r == self@.skill_group_id,
    {
        self.skill_group_id
    }

    pub fn direction(&self) -> (r: u32)
        ensures
            r == self@.direction,
    {
        self.direction
    }

    pub fn agent_extension(&self) -> (r: &String)
        ensures
            r@ == self@.agent_extension,
    {
        &self.agent_extension
    }

    pub fn set_icm_agent_id(&mut self, icm_agent_id: i32)
        ensures
            final(self)@ == (AgentInfoView { icm_agent_id, ..old(self)@ }),
    {
        self.icm_agent_id = icm_agent_id;
    }

    pub fn set_agent_state(&mut self, agent_state: u16)
        ensures
            final(self)@ == (AgentInfoView { agent_state, ..old(self)@ }),
    {
        self.agent_state = agent_state;
    }

    /// Stores the wall-clock start of the current state, `now - elapsed`,
    /// saturating at zero.
    pub fn set_state_duration_at(&mut self, state_duration: u32, now: u64)
        ensures
            final(self)@ == (AgentInfoView {
                state_duration: if now >= state_duration { (now - state_duration) as u64 } else {
                    0
                },
                ..old(self)@
            }),
    {
        if now >= state_duration as u64 {
            self.state_duration = now - state_duration as u64;
        } else {
            self.state_duration = 0;
        }
    }

    /// As `set_state_duration_at`, against the system clock; only the field
    /// itself changes.
    pub fn set_state_duration(&mut self, state_duration: u32)
        ensures
            final(self)@ == (AgentInfoView {
                state_duration: final(self)@.state_duration,
                ..old(self)@
            }),
    {
        let now = now_unix_seconds();
        self.set_state_duration_at(state_duration, now);
    }

    /// Retained in LOGOUT and NOT_READY, forced to zero elsewhere.
    pub fn set_reason_code(&mut self, reason_code: u16)
        ensures
            final(self)@ == (AgentInfoView {
                reason_code: if old(self)@.agent_state == AGENT_STATE_LOGOUT || old(
                    self,
                )@.agent_state == AGENT_STATE_NOT_READY {
                    reason_code
                } else {
                    0
                },
                ..old(self)@
            }),
            final(self)@.reason_code_wf(),
    {
        match self.agent_state {
            1 | 2 => {
                self.reason_code = reason_code;
            },
            _ => {
                self.reason_code = 0;
            },
        }
    }

    /// Retained in TALKING and HOLD, forced to zero elsewhere.
    pub fn set_skill_group_id(&mut self, skill_group_id: u16)
        ensures
            final(self)@ == (AgentInfoView {
                skill_group_id: if old(self)@.agent_state == AGENT_STATE_TALKING || old(
                    self,
                )@.agent_state == AGENT_STATE_HOLD {
                    skill_group_id
                } else {
                    0
                },
                ..old(self)@
            }),
            final(self)@.skill_group_wf(),
    {
        match self.agent_state {
            4 | 10 => {
                self.skill_group_id = skill_group_id;
            },
            _ => {
                self.skill_group_id = 0;
            },
        }
    }

    /// Retained in TALKING, RESERVED, WORK_NOT_READY and HOLD, forced to
    /// zero elsewhere.
    pub fn set_direction(&mut self, direction: u32)
        ensures
            final(self)@ == (AgentInfoView {
                direction: if old(self)@.agent_state == AGENT_STATE_TALKING || old(
                    self,
                )@.agent_state == AGENT_STATE_RESERVED || old(self)@.agent_state
                    == AGENT_STATE_WORK_NOT_READY || old(self)@.agent_state == AGENT_STATE_HOLD {
                    direction
                } else {
                    0
                },
                ..old(self)@
            }),
            final(self)@.direction_wf(),
    {
        match self.agent_state {
            4 | 7 | 8 | 10 => {
                self.direction = direction;
            },
            _ => {
                self.direction = 0;
            },
        }
    }

    /// Cleared in LOGOUT and UNKNOWN, taken from the event elsewhere.
    pub fn set_agent_extension(&mut self, agent_extension: String)
        ensures
            final(self)@ == (AgentInfoView {
                agent_extension: if old(self)@.agent_state == AGENT_STATE_LOGOUT || old(
                    self,
                )@.agent_state == AGENT_STATE_UNKNOWN {
                    Seq::<char>::empty()
                } else {
                    agent_extension@
                },
                ..old(self)@
            }),
            final(self)@.extension_wf(),
    {
        match self.agent_state {
            1 | 9 => {
                self.agent_extension = String::new();
            },
            _ => {
                self.agent_extension = agent_extension;
            },
        }
    }
}

} // verus!
