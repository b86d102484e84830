//! Messages exchanged with the relay over the WebSocket.
//!
//! Identifiers (agents, tunnels, connections) are UUIDs carried as their
//! 128-bit value; payloads of `Data` messages are base64 text.

use vstd::prelude::*;

verus! {

/// A tunnel as configured on the relay for this agent.
#[derive(Debug, Clone, PartialEq, Eq)]
pub struct TunnelConfig {
    pub id: u128,
    pub agent_id: u128,
    pub name: String,
    pub local_port: u16,
    /// `"tcp"` or `"udp"`.
    pub protocol: String,
    pub public_port: u16,
    pub subdomain: Option<String>,
    pub enabled: bool,
}

/// A message from the agent to the relay.
#[derive(Debug, Clone, PartialEq, Eq)]
pub enum AgentMessage {
    /// Agent sends credentials to authenticate.
    Auth { token: String, hostname: String },
    /// First-time setup: request a web claim URL.
    RequestClaim { hostname: String },
    /// Ask the relay to open a public port forwarding to `local_port`.
    CreateTunnel { local_port: u16, protocol: String, preferred_port: Option<u16> },
    /// Ask the relay for a subdomain for an existing tunnel.
    RequestSubdomain { tunnel_id: u128, desired_name: String },
    /// Data transfer; `payload` is base64.
    Data { conn_id: u128, payload: String },
    /// Close an active proxy connection.
    CloseConnection { conn_id: u128 },
    /// Keepalive.
    Ping,
}

/// A message from the relay to the agent.
#[derive(Debug, Clone, PartialEq, Eq)]
pub enum RelayMessage {
    /// Authentication successful.
    AuthSuccess { agent_id: u128, name: String, token: String },
    /// Web claim code generated.
    ClaimReady { code: String, claim_url: String },
    /// Full sync of all configured tunnels for this agent.
    SyncTunnels { tunnels: Vec<TunnelConfig> },
    /// Command from the web dashboard to start a tunnel.
    StartTunnel { tunnel: TunnelConfig },
    /// Command from the web dashboard to stop a tunnel.
    StopTunnel { tunnel_id: u128 },
    /// The tunnel asked for with `CreateTunnel` is open.
    TunnelCreated { tunnel_id: u128, public_port: u16 },
    /// A subdomain was assigned to a tunnel.
    SubdomainAssigned { tunnel_id: u128, subdomain: String },
    /// New incoming external client connection.
    NewConnection { tunnel_id: u128, conn_id: u128 },
    /// Data transfer; `payload` is base64.
    Data { conn_id: u128, payload: String },
    /// Close a connection.
    CloseConnection { conn_id: u128 },
    /// Keepalive answer.
    Pong,
    /// Error report.
    Error { message: String },
}

} // verus!
