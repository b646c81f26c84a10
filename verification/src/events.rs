//! The event types that tie the session engine, the broker and the
//! downstream acceptors together.
use vstd::prelude::*;
use crate::agent_info::AgentInfo;
use crate::message_type::MessageType;

verus! {

/// Identity of one downstream client connection.
#[derive(Debug, Clone, Copy, PartialEq, Eq, Structural, Hash)]
pub struct ClientId(pub u128);

/// What the upstream session reports to the broker.
#[derive(Debug, Clone)]
pub enum CTIEvent {
    /// The heartbeat timer fired.
    TimeToHeartBeat,
    /// The session failed; the broker fails over to the other side.
    Error { cti_server_host: String, error_cause: String },
    /// One complete CTI message arrived, with its exact wire bytes.
    Received { cti_server_host: String, message_type: MessageType, data: Vec<u8> },
}

/// What the broker publishes on its broadcast bus.
#[derive(Debug, Clone)]
pub enum BrokerEvent {
    /// An agent's projected state, for every client or for one.
    BroadcastAgentState { client_id: Option<ClientId>, agent_info: AgentInfo },
    /// Ask the session engine to send a QUERY_AGENT_STATE_REQ upstream.
    RequestAgentStateEvent { peripheral_id: u32, agent_id: String },
    /// Ask the session engine to send a HEARTBEAT_REQ upstream.
    RequestHeartbeatReq,
}

/// The mathematical image of a broker event.
pub enum BrokerEventView {
    BroadcastAgentState { client_id: Option<ClientId>, agent_info: crate::agent_info::AgentInfoView },
    RequestAgentStateEvent { peripheral_id: u32, agent_id: Seq<char> },
    RequestHeartbeatReq,
}

impl View for BrokerEvent {
    type V = BrokerEventView;

    open spec fn view(&self) -> BrokerEventView {
        match self {
            BrokerEvent::BroadcastAgentState { client_id, agent_info } => {
                BrokerEventView::BroadcastAgentState {
                    client_id: *client_id,
                    agent_info: agent_info@,
                }
            },
            BrokerEvent::RequestAgentStateEvent { peripheral_id, agent_id } => {
                BrokerEventView::RequestAgentStateEvent {
                    peripheral_id: *peripheral_id,
                    agent_id: agent_id@,
                }
            },
            BrokerEvent::RequestHeartbeatReq => BrokerEventView::RequestHeartbeatReq,
        }
    }
}

/// Whether a broadcast addressed as `target` is for the client `id`: an
/// untargeted broadcast is for everyone, a targeted one only for its
/// addressee.
pub fn broadcast_is_for(target: &Option<ClientId>, id: ClientId) -> (r: bool)
    ensures
        r == (target is None || *target == Some(id)),
{
    match target {
        None => true,
        Some(t) => *t == id,
    }
}

/// What an acceptor reports about one downstream client.
#[derive(Debug, Clone)]
pub enum ClientEvent {
    Connect { id: ClientId },
    Receive { id: ClientId, data: Vec<u8> },
    Disconnect { id: ClientId },
}

} // verus!
