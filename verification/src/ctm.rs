//! The broker core: it owns the agent map and decides, for every event it
//! is fed, which agents change and which broker events are published.  The
//! channels, sockets, timers and sleeps around it stay outside the library;
//! they perform what this core decides.
use vstd::prelude::*;
use crate::agent_info::{
    AgentInfo, AgentInfoView, AGENT_STATE_HOLD, AGENT_STATE_LOGOUT, AGENT_STATE_NOT_READY,
    AGENT_STATE_RESERVED, AGENT_STATE_TALKING, AGENT_STATE_UNKNOWN, AGENT_STATE_WORK_NOT_READY,
};
use crate::agent_state_event::{AgentStateEvent, AgentStateEventView};
use crate::agent_team_config_event::{
    AgentTeamConfigEvent, AgentTeamConfigEventAgentView,
};
use crate::deserializable::Deserializable;
use crate::events::{BrokerEvent, BrokerEventView, CTIEvent, ClientEvent, ClientId};
use crate::message_type::MessageType;
use crate::open_conf::OpenConf;
use crate::query_agent_state_conf::{QueryAgentStateConf, QueryAgentStateConfView};

verus! {

/// The first entry whose agent id matches, if any.
pub open spec fn find_spec(agents: Seq<AgentInfoView>, id: Seq<char>) -> Option<int>
    decreases agents.len(),
{
    if agents.len() == 0 {
        None
    } else if agents[0].agent_id == id {
        Some(0int)
    } else {
        match find_spec(agents.drop_first(), id) {
            None => None,
            Some(i) => Some(i + 1),
        }
    }
}

pub proof fn lemma_find_spec_props(agents: Seq<AgentInfoView>, id: Seq<char>)
    ensures
        match find_spec(agents, id) {
            Some(i) => 0 <= i < agents.len() && agents[i].agent_id == id && (forall|j: int|
                0 <= j < i ==> agents[j].agent_id != id),
            None => forall|j: int| 0 <= j < agents.len() ==> agents[j].agent_id != id,
        },
    decreases agents.len(),
{
    if agents.len() != 0 && agents[0].agent_id != id {
        let rest = agents.drop_first();
        lemma_find_spec_props(rest, id);
        assert(forall|j: int| 0 <= j < rest.len() ==> rest[j] == agents[j + 1]);
        match find_spec(rest, id) {
            Some(i) => {
                assert(agents[i + 1] == rest[i]);
                assert(forall|j: int| 1 <= j < i + 1 ==> agents[j] == rest[j - 1] && rest[j
                    - 1].agent_id != id);
            },
            None => {
                assert(forall|j: int|
                    1 <= j < agents.len() ==> agents[j] == rest[j - 1] && rest[j - 1].agent_id
                        != id);
            },
        }
    }
}

/// The wall-clock start of a state that has lasted `d` seconds at time
/// `now`, saturating at the epoch.
pub open spec fn duration_start(now: u64, d: u32) -> u64 {
    if now >= d {
        (now - d) as u64
    } else {
        0
    }
}

/// Whether every roster record that names an agent also carries the state
/// and duration the projection needs.
pub open spec fn team_records_complete(recs: Seq<AgentTeamConfigEventAgentView>) -> bool {
    forall|i: int|
        0 <= i < recs.len() ==> (recs[i].agent_id is Some ==> recs[i].agent_state is Some
            && recs[i].state_duration is Some)
}

/// What one roster record does to the agent map: nothing without an agent
/// id; otherwise a state query upstream, an update or a fresh entry, and a
/// broadcast of the result.
pub open spec fn team_step(
    agents: Seq<AgentInfoView>,
    rec: AgentTeamConfigEventAgentView,
    peripheral_id: u32,
    now: u64,
) -> (Seq<AgentInfoView>, Seq<BrokerEventView>) {
    match rec.agent_id {
        None => (agents, Seq::empty()),
        Some(idf) => {
            let req = BrokerEventView::RequestAgentStateEvent { peripheral_id, agent_id: idf.data };
            let st = rec.agent_state.unwrap().data;
            let d = rec.state_duration.unwrap().data;
            match find_spec(agents, idf.data) {
                Some(i) => {
                    let a2 = AgentInfoView {
                        agent_state: st,
                        state_duration: duration_start(now, d),
                        ..agents[i]
                    };
                    (
                        agents.update(i, a2),
                        seq![
                            req,
                            BrokerEventView::BroadcastAgentState {
                                client_id: None,
                                agent_info: a2,
                            },
                        ],
                    )
                },
                None => {
                    let a2 = AgentInfoView {
                        icm_agent_id: 0,
                        agent_id: idf.data,
                        agent_state: st,
                        state_duration: duration_start(now, d),
                        reason_code: 0,
                        skill_group_id: 0,
                        direction: 0,
                        agent_extension: Seq::empty(),
                    };
                    (
                        agents.push(a2),
                        seq![
                            req,
                            BrokerEventView::BroadcastAgentState {
                                client_id: None,
                                agent_info: a2,
                            },
                        ],
                    )
                },
            }
        },
    }
}

/// The roster records applied in order, with the events they publish.
pub open spec fn apply_team(
    agents: Seq<AgentInfoView>,
    recs: Seq<AgentTeamConfigEventAgentView>,
    peripheral_id: u32,
    now: u64,
) -> (Seq<AgentInfoView>, Seq<BrokerEventView>)
    decreases recs.len(),
{
    if recs.len() == 0 {
        (agents, Seq::empty())
    } else {
        let s = team_step(agents, recs[0], peripheral_id, now);
        let r = apply_team(s.0, recs.drop_first(), peripheral_id, now);
        (r.0, s.1 + r.1)
    }
}

/// Appending one record applies it after all the others.
pub proof fn lemma_apply_team_snoc(
    agents: Seq<AgentInfoView>,
    recs: Seq<AgentTeamConfigEventAgentView>,
    rec: AgentTeamConfigEventAgentView,
    peripheral_id: u32,
    now: u64,
)
    ensures
        apply_team(agents, recs.push(rec), peripheral_id, now) == ({
            let s = apply_team(agents, recs, peripheral_id, now);
            let t = team_step(s.0, rec, peripheral_id, now);
            (t.0, s.1 + t.1)
        }),
    decreases recs.len(),
{
    let all = recs.push(rec);
    if recs.len() == 0 {
        assert(all[0] == rec);
        assert(all.drop_first() =~= Seq::<AgentTeamConfigEventAgentView>::empty());
        let t = team_step(agents, rec, peripheral_id, now);
        assert(apply_team(t.0, Seq::empty(), peripheral_id, now).1
            =~= Seq::<BrokerEventView>::empty());
        assert(t.1 + Seq::<BrokerEventView>::empty() =~= t.1);
        assert(Seq::<BrokerEventView>::empty() + t.1 =~= t.1);
    } else {
        assert(all[0] == recs[0]);
        assert(all.drop_first() =~= recs.drop_first().push(rec));
        let s0 = team_step(agents, recs[0], peripheral_id, now);
        lemma_apply_team_snoc(s0.0, recs.drop_first(), rec, peripheral_id, now);
        let s = apply_team(agents, recs, peripheral_id, now);
        let sr = apply_team(s0.0, recs.drop_first(), peripheral_id, now);
        let t = team_step(s.0, rec, peripheral_id, now);
        assert(s.1 == s0.1 + sr.1);
        assert(s0.1 + (sr.1 + t.1) =~= (s0.1 + sr.1) + t.1);
    }
}

/// A roster record for an agent not yet in the map creates an entry that
/// satisfies every retention invariant: its reason, skill group, direction
/// and extension all start empty.
pub proof fn lemma_team_step_new_wf(
    agents: Seq<AgentInfoView>,
    rec: AgentTeamConfigEventAgentView,
    peripheral_id: u32,
    now: u64,
)
    requires
        rec.agent_id matches Some(idf) && find_spec(agents, idf.data) is None,
        rec.agent_state is Some,
        rec.state_duration is Some,
    ensures
        team_step(agents, rec, peripheral_id, now).0.last().wf(),
{
}

/// An AGENT_STATE_EVENT carries what the projection needs only when these
/// floating fields are present.
pub open spec fn ase_required(v: AgentStateEventView) -> bool {
    v.agent_id is Some && v.agent_extension is Some && v.direction is Some
}

/// The record after an AGENT_STATE_EVENT is applied through the setters, in
/// their fixed order, so every retention rule consults the new state.
pub open spec fn apply_ase(a: AgentInfoView, v: AgentStateEventView, now: u64) -> AgentInfoView {
    let st = v.agent_state;
    AgentInfoView {
        agent_id: a.agent_id,
        agent_state: st,
        skill_group_id: if st == AGENT_STATE_TALKING || st == AGENT_STATE_HOLD {
            v.skill_group_id as u16
        } else {
            0
        },
        icm_agent_id: v.icm_agent_id,
        agent_extension: if st == AGENT_STATE_LOGOUT || st == AGENT_STATE_UNKNOWN {
            Seq::empty()
        } else {
            v.agent_extension.unwrap().data
        },
        direction: if st == AGENT_STATE_TALKING || st == AGENT_STATE_RESERVED || st
            == AGENT_STATE_WORK_NOT_READY || st == AGENT_STATE_HOLD {
            v.direction.unwrap().data
        } else {
            0
        },
        reason_code: if st == AGENT_STATE_LOGOUT || st == AGENT_STATE_NOT_READY {
            v.event_reason_code
        } else {
            0
        },
        state_duration: duration_start(now, v.state_duration),
    }
}

/// After an AGENT_STATE_EVENT every retention invariant holds of the
/// updated record, whatever the event carried.
pub proof fn lemma_apply_ase_wf(a: AgentInfoView, v: AgentStateEventView, now: u64)
    ensures
        apply_ase(a, v, now).wf(),
{
}

/// With the event's elapsed time no later than the clock, the stored start
/// is exactly the clock minus the elapsed time.
pub proof fn lemma_apply_ase_duration(a: AgentInfoView, v: AgentStateEventView, now: u64)
    requires
        v.state_duration <= now,
    ensures
        apply_ase(a, v, now).state_duration == now - v.state_duration,
{
}

/// The whole map after an AGENT_STATE_EVENT: the named agent is updated and
/// broadcast; an unknown agent is dropped.
pub open spec fn apply_ase_msg(
    agents: Seq<AgentInfoView>,
    v: AgentStateEventView,
    now: u64,
) -> (Seq<AgentInfoView>, Seq<BrokerEventView>) {
    match find_spec(agents, v.agent_id.unwrap().data) {
        None => (agents, Seq::empty()),
        Some(i) => {
            let a2 = apply_ase(agents[i], v, now);
            (
                agents.update(i, a2),
                seq![BrokerEventView::BroadcastAgentState { client_id: None, agent_info: a2 }],
            )
        },
    }
}

/// An AGENT_STATE_EVENT keeps the whole map well formed: the entry it
/// updates satisfies every retention invariant afresh, and no other entry
/// changes.
pub proof fn lemma_apply_ase_msg_preserves_wf(
    agents: Seq<AgentInfoView>,
    v: AgentStateEventView,
    now: u64,
)
    requires
        v.agent_id is Some,
        forall|i: int| 0 <= i < agents.len() ==> agents[i].wf(),
    ensures
        forall|i: int|
            0 <= i < apply_ase_msg(agents, v, now).0.len() ==> apply_ase_msg(
                agents,
                v,
                now,
            ).0[i].wf(),
{
    match find_spec(agents, v.agent_id.unwrap().data) {
        None => {},
        Some(j) => {
            lemma_apply_ase_wf(agents[j], v, now);
            lemma_find_spec_props(agents, v.agent_id.unwrap().data);
            let out = apply_ase_msg(agents, v, now).0;
            assert forall|i: int| 0 <= i < out.len() implies out[i].wf() by {
                if i != j {
                    assert(out[i] == agents[i]);
                }
            }
        },
    }
}

/// A QUERY_AGENT_STATE_CONF carries what the projection needs only when
/// these floating fields are present.
pub open spec fn qconf_required(v: QueryAgentStateConfView) -> bool {
    v.agent_id is Some && v.skill_group_id is Some && v.agent_extension is Some
}

/// The record after a QUERY_AGENT_STATE_CONF is applied: state, skill group
/// (truncated to 16 bits), ICM id and extension; reason, direction and
/// duration keep their old values.
pub open spec fn apply_qconf(a: AgentInfoView, v: QueryAgentStateConfView) -> AgentInfoView {
    let st = v.agent_state;
    AgentInfoView {
        agent_state: st,
        skill_group_id: if st == AGENT_STATE_TALKING || st == AGENT_STATE_HOLD {
            v.skill_group_id.unwrap().data as u16
        } else {
            0
        },
        icm_agent_id: v.icm_agent_id,
        agent_extension: if st == AGENT_STATE_LOGOUT || st == AGENT_STATE_UNKNOWN {
            Seq::empty()
        } else {
            v.agent_extension.unwrap().data
        },
        ..a
    }
}

/// After a QUERY_AGENT_STATE_CONF the skill-group and extension invariants
/// hold of the updated record.
pub proof fn lemma_apply_qconf_wf(a: AgentInfoView, v: QueryAgentStateConfView)
    ensures
        apply_qconf(a, v).skill_group_wf(),
        apply_qconf(a, v).extension_wf(),
{
}

/// The whole map after a QUERY_AGENT_STATE_CONF.
pub open spec fn apply_qconf_msg(
    agents: Seq<AgentInfoView>,
    v: QueryAgentStateConfView,
) -> (Seq<AgentInfoView>, Seq<BrokerEventView>) {
    match find_spec(agents, v.agent_id.unwrap().data) {
        None => (agents, Seq::empty()),
        Some(i) => {
            let a2 = apply_qconf(agents[i], v);
            (
                agents.update(i, a2),
                seq![BrokerEventView::BroadcastAgentState { client_id: None, agent_info: a2 }],
            )
        },
    }
}

/// What a received message does to the agent map and which events it
/// publishes; `None` is a protocol violation that tears the session down.
pub open spec fn spec_handle_received(
    agents: Seq<AgentInfoView>,
    message_type: MessageType,
    data: Seq<u8>,
    now: u64,
) -> Option<(Seq<AgentInfoView>, Seq<BrokerEventView>)> {
    if message_type == MessageType::OPEN_CONF {
        match OpenConf::spec_deserialize(data) {
            None => None,
            Some(_) => Some((agents, Seq::empty())),
        }
    } else if message_type == MessageType::AGENT_TEAM_CONFIG_EVENT {
        match AgentTeamConfigEvent::spec_deserialize(data) {
            None => None,
            Some((v, _)) => {
                if team_records_complete(v.agents) {
                    Some(apply_team(agents, v.agents, v.peripheral_id, now))
                } else {
                    None
                }
            },
        }
    } else if message_type == MessageType::QUERY_AGENT_STATE_CONF {
        match QueryAgentStateConf::spec_deserialize(data) {
            None => None,
            Some((v, _)) => {
                if qconf_required(v) {
                    Some(apply_qconf_msg(agents, v))
                } else {
                    None
                }
            },
        }
    } else if message_type == MessageType::AGENT_STATE_EVENT {
        match AgentStateEvent::spec_deserialize(data) {
            None => None,
            Some((v, _)) => {
                if ase_required(v) {
                    Some(apply_ase_msg(agents, v, now))
                } else {
                    None
                }
            },
        }
    } else {
        Some((agents, Seq::empty()))
    }
}

/// The snapshot replay a newly connected client receives: one targeted
/// broadcast per map entry, in map order.
pub open spec fn snapshot_events(agents: Seq<AgentInfoView>, id: ClientId) -> Seq<
    BrokerEventView,
> {
    Seq::new(
        agents.len(),
        |i: int|
            BrokerEventView::BroadcastAgentState { client_id: Some(id), agent_info: agents[i] },
    )
}

/// What handling one upstream event decided: the events to publish, whether
/// to fail over, and whether the message broke the protocol (which also
/// tears the session down).
pub struct HandleOutcome {
    pub events: Vec<BrokerEvent>,
    pub failover: bool,
    pub protocol_violation: bool,
}

pub struct CTM {
    is_active: bool,
    agent_info_map: Vec<AgentInfo>,
}

/// The mathematical image of the broker.
pub struct CTMView {
    pub is_active: bool,
    pub agents: Seq<AgentInfoView>,
}

impl View for CTM {
    type V = CTMView;

    closed spec fn view(&self) -> CTMView {
        CTMView {
            is_active: self.is_active,
            agents: self.agent_info_map@.map_values(|a: AgentInfo| a@),
        }
    }
}

impl CTM {
    /// A fresh broker: side A active, no agents known.
    pub fn new() -> (r: Self)
        ensures
            r@.is_active == true,
            r@.agents == Seq::<AgentInfoView>::empty(),
    {
        let r = CTM { is_active: true, agent_info_map: Vec::new() };
        proof {
            assert(r@.agents =~= Seq::<AgentInfoView>::empty());
        }
        r
    }

    /// Which side the broker currently speaks to.
    pub fn is_active(&self) -> (r: bool)
        ensures
            r == self@.is_active,
    {
        self.is_active
    }

    /// Looks an agent up by id.
    pub fn get_agent_info(&self, agent_id: &String) -> (r: Option<&AgentInfo>)
        ensures
            match r {
                Some(a) => find_spec(self@.agents, agent_id@) matches Some(i) && a@
                    == self@.agents[i],
                None => find_spec(self@.agents, agent_id@) is None,
            },
    {
        match self.find_agent(agent_id) {
            None => None,
            Some(i) => Some(&self.agent_info_map[i]),
        }
    }

    /// The index of the agent with the given id, if any.
    fn find_agent(&self, agent_id: &String) -> (r: Option<usize>)
        ensures
            match r {
                Some(i) => i < self@.agents.len() && find_spec(self@.agents, agent_id@) == Some(
                    i as int,
                ),
                None => find_spec(self@.agents, agent_id@) is None,
            },
    {
        let n = self.agent_info_map.len();
        let mut i: usize = 0;
        while i < n
            invariant
                i <= n == self@.agents.len(),
                forall|j: int| 0 <= j < i ==> self@.agents[j].agent_id != agent_id@,
            decreases n - i,
        {
            if *self.agent_info_map[i].agent_id() == *agent_id {
                proof {
                    assert(self@.agents[i as int] == self.agent_info_map@[i as int]@);
                    assert(self@.agents[i as int].agent_id == agent_id@);
                    lemma_find_spec_props(self@.agents, agent_id@);
                    match find_spec(self@.agents, agent_id@) {
                        Some(k) => {
                            if k < i {
                                assert(self@.agents[k].agent_id == agent_id@);
                            }
                            if k > i {
                                assert(self@.agents[i as int].agent_id != agent_id@);
                            }
                        },
                        None => {
                            assert(self@.agents[i as int].agent_id != agent_id@);
                        },
                    }
                }
                return Some(i);
            }
            i = i + 1;
        }
        proof {
            lemma_find_spec_props(self@.agents, agent_id@);
        }
        None
    }

    /// Wraps an agent's state for the broadcast bus, targeted or not.
    pub fn broadcast_agent_info(
        target_client_id: Option<ClientId>,
        agent_info: AgentInfo,
    ) -> (r: BrokerEvent)
        ensures
            r@ == (BrokerEventView::BroadcastAgentState {
                client_id: target_client_id,
                agent_info: agent_info@,
            }),
    {
        BrokerEvent::BroadcastAgentState { client_id: target_client_id, agent_info }
    }

    /// Handles one acceptor event.  A connect replays the whole map to that
    /// client, one targeted broadcast per entry; the rest publish nothing.
    pub fn handle_client_event(&mut self, event: &ClientEvent) -> (r: Vec<BrokerEvent>)
        ensures
            final(self)@ == old(self)@,
            match event {
                ClientEvent::Connect { id } => r@.map_values(|e: BrokerEvent| e@)
                    == snapshot_events(old(self)@.agents, *id),
                _ => r@.len() == 0,
            },
    {
        let mut events: Vec<BrokerEvent> = Vec::new();
        match event {
            ClientEvent::Connect { id } => {
                let n = self.agent_info_map.len();
                let mut i: usize = 0;
                while i < n
                    invariant
                        i <= n == self@.agents.len(),
                        events@.map_values(|e: BrokerEvent| e@) =~= snapshot_events(
                            self@.agents,
                            *id,
                        ).take(i as int),
                    decreases n - i,
                {
                    let snap = self.agent_info_map[i].clone();
                    let ghost events_pre = events@;
                    let ev = BrokerEvent::BroadcastAgentState {
                        client_id: Some(*id),
                        agent_info: snap,
                    };
                    let ghost evv = ev@;
                    events.push(ev);
                    proof {
                        assert(events@.map_values(|e: BrokerEvent| e@) =~= events_pre.map_values(
                            |e: BrokerEvent| e@,
                        ).push(evv));
                        assert(events@.map_values(|e: BrokerEvent| e@) =~= snapshot_events(
                            self@.agents,
                            *id,
                        ).take(i + 1));
                    }
                    i = i + 1;
                }
                proof {
                    assert(snapshot_events(self@.agents, *id).take(n as int) =~= snapshot_events(
                        self@.agents,
                        *id,
                    ));
                }
            },
            _ => {},
        }
        events
    }

    /// Applies a decoded AGENT_TEAM_CONFIG_EVENT: each named roster record
    /// queries the agent's state upstream, updates or creates the map entry,
    /// and broadcasts it.
    pub fn handle_team_config(&mut self, ev: &AgentTeamConfigEvent, now: u64) -> (r: Vec<
        BrokerEvent,
    >)
        requires
            team_records_complete(ev@.agents),
        ensures
            final(self)@.is_active == old(self)@.is_active,
            final(self)@.agents == apply_team(
                old(self)@.agents,
                ev@.agents,
                ev.peripheral_id,
                now,
            ).0,
            r@.map_values(|e: BrokerEvent| e@) == apply_team(
                old(self)@.agents,
                ev@.agents,
                ev.peripheral_id,
                now,
            ).1,
    {
        let peripheral_id = ev.peripheral_id;
        let mut events: Vec<BrokerEvent> = Vec::new();
        let n = ev.agents.len();
        let mut i: usize = 0;
        proof {
            assert(ev@.agents.take(0) =~= Seq::<AgentTeamConfigEventAgentView>::empty());
            assert(events@.map_values(|e: BrokerEvent| e@) =~= Seq::<BrokerEventView>::empty());
        }
        while i < n
            invariant
                i <= n == ev@.agents.len(),
                n == ev.agents@.len(),
                team_records_complete(ev@.agents),
                ev@.agents == ev.agents@.map_values(
                    |a: crate::agent_team_config_event::AgentTeamConfigEventAgent| a@,
                ),
                self@.is_active == old(self)@.is_active,
                self@.agents == apply_team(old(self)@.agents, ev@.agents.take(i as int), peripheral_id, now).0,
                events@.map_values(|e: BrokerEvent| e@) == apply_team(
                    old(self)@.agents,
                    ev@.agents.take(i as int),
                    peripheral_id,
                    now,
                ).1,
            decreases n - i,
        {
            let ghost sofar = apply_team(old(self)@.agents, ev@.agents.take(i as int), peripheral_id, now);
            let ghost recv = ev@.agents[i as int];
            let rec = &ev.agents[i];
            proof {
                assert(rec@ == recv);
                assert(ev@.agents.take(i + 1) =~= ev@.agents.take(i as int).push(recv));
                lemma_apply_team_snoc(
                    old(self)@.agents,
                    ev@.agents.take(i as int),
                    recv,
                    peripheral_id,
                    now,
                );
            }
            match &rec.agent_id {
                None => {
                    proof {
                        assert(team_step(sofar.0, recv, peripheral_id, now).0 == sofar.0);
                        assert(sofar.1 + team_step(sofar.0, recv, peripheral_id, now).1
                            =~= sofar.1);
                    }
                },
                Some(idf) => {
                    events.push(
                        BrokerEvent::RequestAgentStateEvent {
                            peripheral_id,
                            agent_id: idf.data.clone(),
                        },
                    );
                    let st = match &rec.agent_state {
                        Some(f) => f.data,
                        None => {
                            proof {
                                assert(false);
                            }
                            0
                        },
                    };
                    let d = match &rec.state_duration {
                        Some(f) => f.data,
                        None => {
                            proof {
                                assert(false);
                            }
                            0
                        },
                    };
                    let ghost agents_pre = self@.agents;
                    match self.find_agent(&idf.data) {
                        Some(j) => {
                            let a = &mut self.agent_info_map[j];
                            a.set_agent_state(st);
                            a.set_state_duration_at(d, now);
                            proof {
                                assert(self@.agents =~= agents_pre.update(
                                    j as int,
                                    self@.agents[j as int],
                                ));
                            }
                            let snap = self.agent_info_map[j].clone();
                            events.push(
                                BrokerEvent::BroadcastAgentState {
                                    client_id: None,
                                    agent_info: snap,
                                },
                            );
                        },
                        None => {
                            let mut a = AgentInfo::new(idf.data.clone());
                            a.set_agent_state(st);
                            a.set_state_duration_at(d, now);
                            let snap = a.clone();
                            self.agent_info_map.push(a);
                            proof {
                                assert(self@.agents =~= agents_pre.push(snap@));
                            }
                            events.push(
                                BrokerEvent::BroadcastAgentState {
                                    client_id: None,
                                    agent_info: snap,
                                },
                            );
                        },
                    }
                    proof {
                        let t = team_step(sofar.0, recv, peripheral_id, now);
                        assert(self@.agents == t.0);
                        assert(events@.map_values(|e: BrokerEvent| e@) =~= sofar.1 + t.1);
                    }
                },
            }
            i = i + 1;
        }
        proof {
            assert(ev@.agents.take(n as int) =~= ev@.agents);
        }
        events
    }

    /// Applies a decoded QUERY_AGENT_STATE_CONF to the named agent, if it is
    /// known, and broadcasts the result.
    pub fn handle_query_agent_state_conf(&mut self, ev: &QueryAgentStateConf) -> (r: Vec<
        BrokerEvent,
    >)
        requires
            qconf_required(ev@),
        ensures
            final(self)@.is_active == old(self)@.is_active,
            final(self)@.agents == apply_qconf_msg(old(self)@.agents, ev@).0,
            r@.map_values(|e: BrokerEvent| e@) == apply_qconf_msg(old(self)@.agents, ev@).1,
    {
        let mut events: Vec<BrokerEvent> = Vec::new();
        let agent_id = match &ev.agent_id {
            Some(f) => &f.data,
            None => {
                proof {
                    assert(false);
                }
                return events;
            },
        };
        let skill_group_id = match &ev.skill_group_id {
            Some(f) => f.data,
            None => {
                proof {
                    assert(false);
                }
                0
            },
        };
        let ghost agents_pre = self@.agents;
        match self.find_agent(agent_id) {
            None => {
                proof {
                    assert(events@.map_values(|e: BrokerEvent| e@) =~= Seq::<
                        BrokerEventView,
                    >::empty());
                }
            },
            Some(j) => {
                let extension = match &ev.agent_extension {
                    Some(f) => f.data.clone(),
                    None => {
                        proof {
                            assert(false);
                        }
                        String::new()
                    },
                };
                let a = &mut self.agent_info_map[j];
                a.set_agent_state(ev.agent_state);
                a.set_skill_group_id(skill_group_id as u16);
                a.set_icm_agent_id(ev.icm_agent_id);
                a.set_agent_extension(extension);
                proof {
                    assert(self@.agents =~= agents_pre.update(j as int, self@.agents[j as int]));
                    assert(self@.agents[j as int] == apply_qconf(agents_pre[j as int], ev@));
                }
                let snap = self.agent_info_map[j].clone();
                events.push(
                    BrokerEvent::BroadcastAgentState { client_id: None, agent_info: snap },
                );
                proof {
                    assert(events@.map_values(|e: BrokerEvent| e@) =~= apply_qconf_msg(
                        agents_pre,
                        ev@,
                    ).1);
                }
            },
        }
        events
    }

    /// Applies a decoded AGENT_STATE_EVENT to the named agent, if it is
    /// known, and broadcasts the result.
    pub fn handle_agent_state_event(&mut self, ev: &AgentStateEvent, now: u64) -> (r: Vec<
        BrokerEvent,
    >)
        requires
            ase_required(ev@),
        ensures
            final(self)@.is_active == old(self)@.is_active,
            final(self)@.agents == apply_ase_msg(old(self)@.agents, ev@, now).0,
            r@.map_values(|e: BrokerEvent| e@) == apply_ase_msg(old(self)@.agents, ev@, now).1,
    {
        let mut events: Vec<BrokerEvent> = Vec::new();
        let agent_id = match &ev.agent_id {
            Some(f) => &f.data,
            None => {
                proof {
                    assert(false);
                }
                return events;
            },
        };
        let direction = match &ev.direction {
            Some(f) => f.data,
            None => {
                proof {
                    assert(false);
                }
                0
            },
        };
        let ghost agents_pre = self@.agents;
        match self.find_agent(agent_id) {
            None => {
                proof {
                    assert(events@.map_values(|e: BrokerEvent| e@) =~= Seq::<
                        BrokerEventView,
                    >::empty());
                }
            },
            Some(j) => {
                let extension = match &ev.agent_extension {
                    Some(f) => f.data.clone(),
                    None => {
                        proof {
                            assert(false);
                        }
                        String::new()
                    },
                };
                let a = &mut self.agent_info_map[j];
                a.set_agent_state(ev.agent_state);
                a.set_skill_group_id(ev.skill_group_id as u16);
                a.set_icm_agent_id(ev.icm_agent_id);
                a.set_agent_extension(extension);
                a.set_direction(direction);
                a.set_reason_code(ev.event_reason_code);
                a.set_state_duration_at(ev.state_duration, now);
                proof {
                    assert(self@.agents =~= agents_pre.update(j as int, self@.agents[j as int]));
                    assert(self@.agents[j as int] == apply_ase(agents_pre[j as int], ev@, now));
                }
                let snap = self.agent_info_map[j].clone();
                events.push(
                    BrokerEvent::BroadcastAgentState { client_id: None, agent_info: snap },
                );
                proof {
                    assert(events@.map_values(|e: BrokerEvent| e@) =~= apply_ase_msg(
                        agents_pre,
                        ev@,
                        now,
                    ).1);
                }
            },
        }
        events
    }

    /// Handles one upstream event at clock reading `now`.
    ///
    /// A heartbeat tick asks for a HEARTBEAT_REQ whatever the broker's state,
    /// so the heartbeat goes on ticking across failovers.  An error flips the
    /// active side and asks for a reconnect, which the caller performs after
    /// its failover delay.  A received message is decoded and applied; a
    /// malformed one is reported as a protocol violation and changes nothing.
    pub fn handle_cti_event(&mut self, event: &CTIEvent, now: u64) -> (r: HandleOutcome)
        ensures
            match event {
                CTIEvent::TimeToHeartBeat => !r.failover && !r.protocol_violation && final(self)@
                    == old(self)@ && r.events@.map_values(|e: BrokerEvent| e@) == seq![
                    BrokerEventView::RequestHeartbeatReq,
                ],
                CTIEvent::Error { .. } => r.failover && !r.protocol_violation && final(self)@.agents == old(self)@.agents && final(self)@.is_active == !old(self)@.is_active
                    && r.events@.len() == 0,
                CTIEvent::Received { message_type, data, .. } => !r.failover && final(self)@.is_active == old(self)@.is_active && (match spec_handle_received(
                    old(self)@.agents,
                    *message_type,
                    data@,
                    now,
                ) {
                    None => r.protocol_violation && final(self)@.agents == old(self)@.agents
                        && r.events@.len() == 0,
                    Some(out) => !r.protocol_violation && final(self)@.agents == out.0
                        && r.events@.map_values(|e: BrokerEvent| e@) == out.1,
                }),
            },
    {
        match event {
            CTIEvent::TimeToHeartBeat => {
                let mut events: Vec<BrokerEvent> = Vec::new();
                events.push(BrokerEvent::RequestHeartbeatReq);
                proof {
                    assert(events@.map_values(|e: BrokerEvent| e@) =~= seq![
                        BrokerEventView::RequestHeartbeatReq,
                    ]);
                }
                HandleOutcome { events, failover: false, protocol_violation: false }
            },
            CTIEvent::Error { .. } => {
                self.is_active = !self.is_active;
                HandleOutcome { events: Vec::new(), failover: true, protocol_violation: false }
            },
            CTIEvent::Received { message_type, data, .. } => {
                let violation = HandleOutcome {
                    events: Vec::new(),
                    failover: false,
                    protocol_violation: true,
                };
                match message_type {
                    MessageType::OPEN_CONF => {
                        match OpenConf::deserialize(data) {
                            None => violation,
                            Some(_) => HandleOutcome {
                                events: Vec::new(),
                                failover: false,
                                protocol_violation: false,
                            },
                        }
                    },
                    MessageType::AGENT_TEAM_CONFIG_EVENT => {
                        match AgentTeamConfigEvent::deserialize(data) {
                            None => violation,
                            Some((_, ev)) => {
                                if Self::team_records_complete_exec(&ev) {
                                    let events = self.handle_team_config(&ev, now);
                                    HandleOutcome {
                                        events,
                                        failover: false,
                                        protocol_violation: false,
                                    }
                                } else {
                                    violation
                                }
                            },
                        }
                    },
                    MessageType::QUERY_AGENT_STATE_CONF => {
                        match QueryAgentStateConf::deserialize(data) {
                            None => violation,
                            Some((_, ev)) => {
                                if ev.agent_id.is_some() && ev.skill_group_id.is_some()
                                    && ev.agent_extension.is_some() {
                                    let events = self.handle_query_agent_state_conf(&ev);
                                    HandleOutcome {
                                        events,
                                        failover: false,
                                        protocol_violation: false,
                                    }
                                } else {
                                    violation
                                }
                            },
                        }
                    },
                    MessageType::AGENT_STATE_EVENT => {
                        match AgentStateEvent::deserialize(data) {
                            None => violation,
                            Some((_, ev)) => {
                                if ev.agent_id.is_some() && ev.agent_extension.is_some()
                                    && ev.direction.is_some() {
                                    let events = self.handle_agent_state_event(&ev, now);
                                    HandleOutcome {
                                        events,
                                        failover: false,
                                        protocol_violation: false,
                                    }
                                } else {
                                    violation
                                }
                            },
                        }
                    },
                    _ => HandleOutcome {
                        events: Vec::new(),
                        failover: false,
                        protocol_violation: false,
                    },
                }
            },
        }
    }

    /// Executable mirror of `team_records_complete`.
    fn team_records_complete_exec(ev: &AgentTeamConfigEvent) -> (r: bool)
        ensures
            r == team_records_complete(ev@.agents),
    {
        let n = ev.agents.len();
        let mut i: usize = 0;
        while i < n
            invariant
                i <= n == ev.agents@.len(),
                ev@.agents == ev.agents@.map_values(
                    |a: crate::agent_team_config_event::AgentTeamConfigEventAgent| a@,
                ),
                forall|j: int|
                    0 <= j < i ==> (ev@.agents[j].agent_id is Some ==> ev@.agents[j].agent_state
                        is Some && ev@.agents[j].state_duration is Some),
            decreases n - i,
        {
            let rec = &ev.agents[i];
            if rec.agent_id.is_some() && !(rec.agent_state.is_some()
                && rec.state_duration.is_some()) {
                proof {
                    assert(ev@.agents[i as int] == rec@);
                }
                return false;
            }
            proof {
                assert(ev@.agents[i as int] == rec@);
            }
            i = i + 1;
        }
        true
    }
}

} // verus!
