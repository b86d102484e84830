//! Verified core of the tunnelit agent: the wire messages exchanged with the
//! relay, the agent's configuration rules, the registry of local proxied
//! connections and the decisions the agent takes on each relay event.

pub mod text;
pub mod protocol;
pub mod payload;
pub mod channel;
pub mod local_proxy;
pub mod config;
pub mod tunnel_client;
