//! A verified core for a contact-center agent-state monitor broker:
//! the Cisco CTI wire codec, packet reassembly, the agent-state
//! projection, the broker event fan-out rules, and the WebSocket
//! framing used towards downstream monitoring clients.
pub mod agent_info;
pub mod agent_state_event;
pub mod agent_team_config_event;
pub mod byte_codec;
pub mod cti_client;
pub mod ctm;
pub mod deserializable;
pub mod events;
pub mod floating_field;
pub mod heartbeat_req;
pub mod message_type;
pub mod mhdr;
pub mod open_conf;
pub mod open_req;
pub mod query_agent_state_conf;
pub mod query_agent_state_req;
pub mod reassembly;
pub mod serializable;
pub mod tag_value;
pub mod websocket;
