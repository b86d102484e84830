//! The agent's session with the relay. The connection itself (WebSocket,
//! local sockets, tasks) is driven outside this crate; here are the messages
//! the agent sends and what it decides on each event from the relay.

use vstd::prelude::*;
use crate::local_proxy::{LocalConnections, RouteOutcome};
use crate::payload::{standard_decode, standard_decoded};
use crate::protocol::{AgentMessage, RelayMessage};
use tokio::sync::mpsc::UnboundedSender;

verus! {

/// The open connections after the agent handled `incoming`: a relay
/// `CloseConnection` drops that connection, and nothing else changes them.
pub open spec fn registry_after(
    before: Map<u128, UnboundedSender<Vec<u8>>>,
    incoming: Incoming,
) -> Map<u128, UnboundedSender<Vec<u8>>> {
    match incoming {
        Incoming::Message(RelayMessage::CloseConnection { conn_id }) => before.remove(conn_id),
        _ => before,
    }
}

/// The transport of the local service.
#[derive(Debug, Clone, Copy, PartialEq, Eq)]
pub enum Transport {
    Tcp,
    Udp,
}

/// One frame from the relay's WebSocket, as the reader classified it.
#[derive(Debug, Clone, PartialEq, Eq)]
pub enum Incoming {
    /// A text frame holding a relay message.
    Message(RelayMessage),
    /// A text frame that is not a relay message.
    Unreadable,
    /// The relay closed the WebSocket.
    Closed,
    /// The WebSocket failed.
    Failed,
    /// Ping, pong or binary frames.
    Ignored,
}

/// Work the agent asks its runtime to do.
#[derive(Debug, Clone, PartialEq, Eq)]
pub enum Action {
    /// Send this message to the relay.
    Send(AgentMessage),
    /// Connect to the local service for relay connection `conn_id`.
    OpenLocal { transport: Transport, conn_id: u128, local_port: u16 },
}

/// What happened to the payload of a `Data` event.
pub enum Delivery {
    /// The event carried no data.
    NoData,
    /// The payload was not base64.
    Undecodable(base64::DecodeError),
    /// The decoded bytes were handed to the connection registry.
    Routed(RouteOutcome),
}

/// The agent's answer to one event.
pub struct Reaction {
    pub actions: Vec<Action>,
    pub delivery: Delivery,
    /// False once the relay connection is over.
    pub keep_running: bool,
}

/// One tunnel of a local port through the relay.
pub struct TunnelClient {
    relay_url: url::Url,
    local_port: u16,
    protocol: String,
    preferred_port: Option<u16>,
    subdomain: Option<String>,
}

impl TunnelClient {
    pub closed spec fn spec_local_port(&self) -> u16 {
        self.local_port
    }

    pub closed spec fn spec_protocol(&self) -> String {
        self.protocol
    }

    pub closed spec fn spec_preferred_port(&self) -> Option<u16> {
        self.preferred_port
    }

    pub closed spec fn spec_subdomain(&self) -> Option<String> {
        self.subdomain
    }

    pub closed spec fn spec_relay_url(&self) -> url::Url {
        self.relay_url
    }

    /// The actions the agent takes on `incoming`.
    pub open spec fn planned_actions(&self, incoming: Incoming) -> Seq<Action> {
        match incoming {
            Incoming::Message(RelayMessage::TunnelCreated { tunnel_id, .. }) => {
                match self.spec_subdomain() {
                    Some(name) => seq![
                        Action::Send(
                            AgentMessage::RequestSubdomain { tunnel_id, desired_name: name },
                        ),
                    ],
                    None => Seq::empty(),
                }
            },
            Incoming::Message(RelayMessage::NewConnection { conn_id, .. }) => {
                if self.spec_protocol()@ == "tcp"@ {
                    seq![
                        Action::OpenLocal {
                            transport: Transport::Tcp,
                            conn_id,
                            local_port: self.spec_local_port(),
                        },
                    ]
                } else if self.spec_protocol()@ == "udp"@ {
                    seq![
                        Action::OpenLocal {
                            transport: Transport::Udp,
                            conn_id,
                            local_port: self.spec_local_port(),
                        },
                    ]
                } else {
                    Seq::empty()
                }
            },
            _ => Seq::empty(),
        }
    }

    /// A tunnel for `local_port` over `protocol` (`"tcp"` or `"udp"`), asking the
    /// relay for `preferred_port` and for `subdomain` when given.
    pub fn new(
        relay_url: url::Url,
        local_port: u16,
        protocol: String,
        preferred_port: Option<u16>,
        subdomain: Option<String>,
    ) -> (r: Self)
        ensures
            r.spec_relay_url() == relay_url,
            r.spec_local_port() == local_port,
            r.spec_protocol() == protocol,
            r.spec_preferred_port() == preferred_port,
            r.spec_subdomain() == subdomain,
    {
        TunnelClient { relay_url, local_port, protocol, preferred_port, subdomain }
    }

    /// The relay's address.
    pub fn relay_url(&self) -> (r: &url::Url)
        ensures
            *r == self.spec_relay_url(),
    {
        &self.relay_url
    }

    /// The local port the tunnel forwards to.
    pub fn local_port(&self) -> (r: u16)
        ensures
            r == self.spec_local_port(),
    {
        self.local_port
    }

    /// The first message of a session: ask the relay to open the tunnel.
    pub fn create_tunnel_message(&self) -> (r: AgentMessage)
        ensures
            r == (AgentMessage::CreateTunnel {
                local_port: self.spec_local_port(),
                protocol: self.spec_protocol(),
                preferred_port: self.spec_preferred_port(),
            }),
    {
        AgentMessage::CreateTunnel {
            local_port: self.local_port,
            protocol: self.protocol.clone(),
            preferred_port: self.preferred_port,
        }
    }

    /// Reacts to one frame from the relay: plans the messages to send and the
    /// local connections to open, closes connections the relay closed, and
    /// routes the decoded payload of data frames to their connection.
    pub fn step(&self, conns: &mut LocalConnections, incoming: Incoming) -> (r: Reaction)
        ensures
            r.keep_running == !(incoming is Closed || incoming is Failed),
            r.actions@ == self.planned_actions(incoming),
            final(conns)@ == registry_after(old(conns)@, incoming),
            match incoming {
                Incoming::Message(RelayMessage::Data { conn_id, payload }) => {
                    match standard_decoded(payload@) {
                        None => r.delivery is Undecodable,
                        Some(bytes) => {
                            &&& r.delivery matches Delivery::Routed(outcome)
                            &&& (outcome is UnknownConnection <==> !old(conns)@.contains_key(
                                conn_id,
                            ))
                            &&& outcome matches RouteOutcome::Sent(receipt) ==> {
                                &&& receipt.sender() == old(conns)@[conn_id]
                                &&& receipt.chunk() == bytes
                            }
                        },
                    }
                },
                _ => r.delivery is NoData,
            },
    {
        match incoming {
            Incoming::Message(message) => {
                let mut actions: Vec<Action> = Vec::new();
                let mut delivery = Delivery::NoData;
                match message {
                    RelayMessage::TunnelCreated { tunnel_id, .. } => {
                        match &self.subdomain {
                            Some(name) => {
                                actions.push(
                                    Action::Send(
                                        AgentMessage::RequestSubdomain {
                                            tunnel_id,
                                            desired_name: name.clone(),
                                        },
                                    ),
                                );
                            },
                            None => {},
                        }
                    },
                    RelayMessage::NewConnection { conn_id, .. } => {
                        let tcp = "tcp".to_owned();
                        let udp = "udp".to_owned();
                        if self.protocol == tcp {
                            actions.push(
                                Action::OpenLocal {
                                    transport: Transport::Tcp,
                                    conn_id,
                                    local_port: self.local_port,
                                },
                            );
                        } else if self.protocol == udp {
                            actions.push(
                                Action::OpenLocal {
                                    transport: Transport::Udp,
                                    conn_id,
                                    local_port: self.local_port,
                                },
                            );
                        }
                    },
                    RelayMessage::Data { conn_id, payload } => {
                        delivery =
                        match standard_decode(payload.as_str()) {
                            Ok(bytes) => Delivery::Routed(conns.route_data(conn_id, bytes)),
                            Err(e) => Delivery::Undecodable(e),
                        };
                    },
                    RelayMessage::CloseConnection { conn_id } => {
                        conns.close_connection(&conn_id);
                    },
                    _ => {},
                }
                Reaction { actions, delivery, keep_running: true }
            },
            Incoming::Closed | Incoming::Failed => {
                Reaction { actions: Vec::new(), delivery: Delivery::NoData, keep_running: false }
            },
            Incoming::Unreadable | Incoming::Ignored => {
                Reaction { actions: Vec::new(), delivery: Delivery::NoData, keep_running: true }
            },
        }
    }
}

/// What a session has done after a run of frames, as [`TunnelClient::step`]
/// states it frame by frame.
pub struct SessionTrace {
    /// The actions planned, in order.
    pub actions: Seq<Action>,
    /// The (connection, decoded bytes) pairs handed to the registry for routing, in order.
    pub routed: Seq<(u128, Seq<u8>)>,
    /// The open connections.
    pub registry: Map<u128, UnboundedSender<Vec<u8>>>,
    /// Whether the session still runs.
    pub running: bool,
}

/// The bytes a frame hands to the registry for routing: the decoded payload
/// of a `Data` frame whose payload is base64.
pub open spec fn frame_routes(incoming: Incoming) -> Seq<(u128, Seq<u8>)> {
    match incoming {
        Incoming::Message(RelayMessage::Data { conn_id, payload }) => match standard_decoded(
            payload@,
        ) {
            Some(bytes) => seq![(conn_id, bytes)],
            None => Seq::empty(),
        },
        _ => Seq::empty(),
    }
}

/// Frames that the session passes over: ping, pong and binary frames, text
/// that is no relay message, relay pongs, subdomain notices and error reports.
pub open spec fn is_ignorable(incoming: Incoming) -> bool {
    ||| incoming is Ignored
    ||| incoming is Unreadable
    ||| incoming matches Incoming::Message(RelayMessage::Pong)
    ||| incoming matches Incoming::Message(RelayMessage::SubdomainAssigned { .. })
    ||| incoming matches Incoming::Message(RelayMessage::Error { .. })
}

impl TunnelClient {
    /// The session after handling `frames` from `start`; frames after the one
    /// that ends the session are not read.
    pub open spec fn run_frames(&self, start: SessionTrace, frames: Seq<Incoming>) -> SessionTrace
        decreases frames.len(),
    {
        if frames.len() == 0 || !start.running {
            start
        } else {
            let f = frames[0];
            let next = SessionTrace {
                actions: start.actions + self.planned_actions(f),
                routed: start.routed + frame_routes(f),
                registry: registry_after(start.registry, f),
                running: !(f is Closed || f is Failed),
            };
            self.run_frames(next, frames.drop_first())
        }
    }
}

/// Whether `longer` is `frames` with frames the session passes over
/// inserted anywhere (any number of them, none included).
pub open spec fn padded_with_ignorable(longer: Seq<Incoming>, frames: Seq<Incoming>) -> bool
    decreases longer.len(),
{
    if longer.len() == 0 {
        frames.len() == 0
    } else {
        ||| (frames.len() > 0 && longer[0] == frames[0] && padded_with_ignorable(
            longer.drop_first(),
            frames.drop_first(),
        ))
        ||| (is_ignorable(longer[0]) && padded_with_ignorable(longer.drop_first(), frames))
    }
}

/// Law: frames the session passes over change nothing: a run of frames with
/// any number of them inserted anywhere plans the same actions, routes the
/// same bytes, leaves the same open connections and ends or runs as the run
/// without them.
pub proof fn law_ignorable_frames_change_nothing(
    client: TunnelClient,
    start: SessionTrace,
    longer: Seq<Incoming>,
    frames: Seq<Incoming>,
)
    requires
        padded_with_ignorable(longer, frames),
    ensures
        client.run_frames(start, longer) == client.run_frames(start, frames),
    decreases longer.len(),
{
    if !start.running || longer.len() == 0 {
    } else if frames.len() > 0 && longer[0] == frames[0] && padded_with_ignorable(
        longer.drop_first(),
        frames.drop_first(),
    ) {
        let f = frames[0];
        let next = SessionTrace {
            actions: start.actions + client.planned_actions(f),
            routed: start.routed + frame_routes(f),
            registry: registry_after(start.registry, f),
            running: !(f is Closed || f is Failed),
        };
        law_ignorable_frames_change_nothing(client, next, longer.drop_first(), frames.drop_first());
    } else {
        let extra = longer[0];
        let next = SessionTrace {
            actions: start.actions + client.planned_actions(extra),
            routed: start.routed + frame_routes(extra),
            registry: registry_after(start.registry, extra),
            running: !(extra is Closed || extra is Failed),
        };
        assert(next.actions =~= start.actions);
        assert(next.routed =~= start.routed);
        assert(next == start);
        law_ignorable_frames_change_nothing(client, start, longer.drop_first(), frames);
    }
}

/// Law: what the agent does on a relay frame does not depend on the public
/// port it asked the relay for: two tunnels that differ only in the
/// preferred port (and relay address) plan the same actions on every frame.
/// The preferred port only travels in the `CreateTunnel` request.
pub proof fn law_actions_ignore_preferred_port(a: TunnelClient, b: TunnelClient, incoming: Incoming)
    requires
        a.spec_local_port() == b.spec_local_port(),
        a.spec_protocol() == b.spec_protocol(),
        a.spec_subdomain() == b.spec_subdomain(),
    ensures
        a.planned_actions(incoming) == b.planned_actions(incoming),
{
}

/// Law: every local connection the agent opens goes to the tunnelled local
/// port, for the connection the frame announced; a `NewConnection` on a
/// `"tcp"` tunnel opens exactly one TCP connection, on a `"udp"` tunnel
/// exactly one UDP connection, and on any other protocol none.
pub proof fn law_local_connections_use_the_local_port(
    client: TunnelClient,
    incoming: Incoming,
    tunnel_id: u128,
    conn_id: u128,
)
    ensures
        forall|i: int|
            0 <= i < client.planned_actions(incoming).len() ==> (
            #[trigger] client.planned_actions(incoming)[i] matches Action::OpenLocal {
                local_port,
                conn_id: c,
                ..
            } ==> (local_port == client.spec_local_port() && (incoming matches Incoming::Message(
                RelayMessage::NewConnection { conn_id: announced, .. },
            ) && c == announced))),
        client.spec_protocol()@ == "tcp"@ ==> client.planned_actions(
            Incoming::Message(RelayMessage::NewConnection { tunnel_id, conn_id }),
        ) == seq![
            Action::OpenLocal {
                transport: Transport::Tcp,
                conn_id,
                local_port: client.spec_local_port(),
            },
        ],
        client.spec_protocol()@ == "udp"@ ==> client.planned_actions(
            Incoming::Message(RelayMessage::NewConnection { tunnel_id, conn_id }),
        ) == seq![
            Action::OpenLocal {
                transport: Transport::Udp,
                conn_id,
                local_port: client.spec_local_port(),
            },
        ],
        client.spec_protocol()@ != "tcp"@ && client.spec_protocol()@ != "udp"@
            ==> client.planned_actions(
            Incoming::Message(RelayMessage::NewConnection { tunnel_id, conn_id }),
        ).len() == 0,
{
    reveal_strlit("tcp");
    reveal_strlit("udp");
    assert("udp"@[0] != "tcp"@[0]);
}

/// Law: once the relay reports the tunnel created, a tunnel with a desired
/// subdomain asks for exactly that subdomain for exactly that tunnel, once,
/// whatever public port the relay gave; a tunnel without one asks for nothing.
pub proof fn law_subdomain_requested_on_creation(
    client: TunnelClient,
    tunnel_id: u128,
    public_port: u16,
)
    ensures
        client.spec_subdomain() matches Some(name) ==> client.planned_actions(
            Incoming::Message(RelayMessage::TunnelCreated { tunnel_id, public_port }),
        ) == seq![Action::Send(AgentMessage::RequestSubdomain { tunnel_id, desired_name: name })],
        client.spec_subdomain() is None ==> client.planned_actions(
            Incoming::Message(RelayMessage::TunnelCreated { tunnel_id, public_port }),
        ).len() == 0,
{
}

/// Law: only a relay `CloseConnection` changes the open connections, and it
/// removes just the connection it names; in particular a data frame leaves
/// every connection registered to the sender it had, so a connection that
/// received data still receives the next data frame.
pub proof fn law_only_relay_close_changes_connections(
    before: Map<u128, UnboundedSender<Vec<u8>>>,
    incoming: Incoming,
    conn_id: u128,
    payload: String,
)
    ensures
        !(incoming matches Incoming::Message(RelayMessage::CloseConnection { .. }))
            ==> registry_after(before, incoming) == before,
        registry_after(before, Incoming::Message(RelayMessage::Data { conn_id, payload }))
            == before,
        incoming matches Incoming::Message(RelayMessage::CloseConnection { conn_id: closed })
            ==> registry_after(before, incoming).dom() == before.dom().remove(closed)
            && forall|k: u128| k != closed && #[trigger] before.contains_key(k)
                ==> registry_after(before, incoming)[k] == before[k],
{
}

/// Law: handling relay events never registers a connection; the registry only
/// grows through [`LocalConnections::register`], when the runtime opens a
/// local connection.
pub proof fn law_events_never_add_connections(
    before: Map<u128, UnboundedSender<Vec<u8>>>,
    incoming: Incoming,
)
    ensures
        registry_after(before, incoming).dom().subset_of(before.dom()),
        forall|k: u128| #[trigger]
            registry_after(before, incoming).contains_key(k) ==> registry_after(before, incoming)[k]
                == before[k],
{
}

/// Law: once the relay closed a connection, the connection stays out of the
/// registry, so [`TunnelClient::step`] answers `UnknownConnection` to data
/// for it (and hands those bytes to no sender by receipt) until the runtime
/// registers that connection again.
pub proof fn law_closed_connection_gets_no_data(
    before: Map<u128, UnboundedSender<Vec<u8>>>,
    conn_id: u128,
    payload: String,
)
    ensures
        !registry_after(
            registry_after(before, Incoming::Message(RelayMessage::CloseConnection { conn_id })),
            Incoming::Message(RelayMessage::Data { conn_id, payload }),
        ).contains_key(conn_id),
        !registry_after(before, Incoming::Message(RelayMessage::CloseConnection { conn_id })).contains_key(
            conn_id,
        ),
{
}

} // verus!
