//! Registry of the local connections that proxy relay traffic, keyed by the
//! relay's connection id; each entry is the sending half of the channel that
//! feeds bytes to the task writing into the local socket.

use vstd::prelude::*;
use std::collections::HashMap;
use tokio::sync::mpsc::UnboundedSender;
use crate::channel::{send_chunk, SendReceipt};
use crate::payload::{standard_decoded, standard_encode, standard_encoded};
use crate::protocol::AgentMessage;
use crate::text::{decimal, digits_value, law_decimal_reads_back, push_decimal};
use crate::tunnel_client::Transport;

verus! {

broadcast use vstd::std_specs::hash::group_hash_axioms;

/// What became of bytes handed to [`LocalConnections::route_data`].
pub enum RouteOutcome {
    /// The bytes were handed to the connection's sender; the receipt tells
    /// whether tokio queued them for the writer task or handed them back.
    Sent(SendReceipt),
    /// No connection is registered under that id.
    UnknownConnection,
}

/// The open local connections, by connection id.
pub struct LocalConnections {
    connections: HashMap<u128, UnboundedSender<Vec<u8>>>,
}

impl View for LocalConnections {
    type V = Map<u128, UnboundedSender<Vec<u8>>>;

    closed spec fn view(&self) -> Self::V {
        self.connections@
    }
}

impl LocalConnections {
    /// An empty registry.
    pub fn new() -> (r: Self)
        ensures
            r@ == Map::<u128, UnboundedSender<Vec<u8>>>::empty(),
    {
        LocalConnections { connections: HashMap::new() }
    }

    /// Registers `tx`, the sending half of the channel read by the task that
    /// writes into the local socket, as connection `conn_id`. An earlier
    /// connection under the same id loses its entry (its channel then closes
    /// once nothing else holds the sender, and its task ends).
    pub fn register(&mut self, conn_id: u128, tx: UnboundedSender<Vec<u8>>)
        ensures
            final(self)@ == old(self)@.insert(conn_id, tx),
    {
        self.connections.insert(conn_id, tx);
    }

    /// The sender registered for `conn_id`, if any.
    pub fn sender_for(&self, conn_id: u128) -> (r: Option<&UnboundedSender<Vec<u8>>>)
        ensures
            r is None <==> !self@.contains_key(conn_id),
            r matches Some(tx) ==> *tx == self@[conn_id],
    {
        self.connections.get(&conn_id)
    }

    /// Hands `data`, unchanged, to the sender registered for `conn_id`, or
    /// answers `UnknownConnection` when none is registered. Whether tokio then
    /// queues the bytes for the writer task is its answer, recorded in the
    /// receipt. The contract follows sends through receipts only, so it does
    /// not state that no other send is made.
    pub fn route_data(&self, conn_id: u128, data: Vec<u8>) -> (r: RouteOutcome)
        ensures
            r is UnknownConnection <==> !self@.contains_key(conn_id),
            r matches RouteOutcome::Sent(receipt) ==> {
                &&& receipt.sender() == self@[conn_id]
                &&& receipt.chunk() == data@
                &&& receipt.returned() matches Some(back) ==> back == data
            },
    {
        match self.sender_for(conn_id) {
            Some(sender) => RouteOutcome::Sent(send_chunk(sender, data)),
            None => RouteOutcome::UnknownConnection,
        }
    }

    /// Forgets connection `conn_id`; its writer task ends once the channel closes.
    pub fn close_connection(&mut self, conn_id: &u128)
        ensures
            final(self)@ == old(self)@.remove(*conn_id),
    {
        self.connections.remove(conn_id);
    }

    /// Whether a connection is registered under `conn_id`.
    pub fn contains(&self, conn_id: u128) -> (r: bool)
        ensures
            r == self@.contains_key(conn_id),
    {
        self.connections.contains_key(&conn_id)
    }

    /// Number of registered connections.
    pub fn len(&self) -> (r: usize)
        ensures
            r == self@.len(),
    {
        self.connections.len()
    }
}

/// Law: closing a connection undoes registering it: a registry that did not
/// hold `conn_id`, after [`LocalConnections::register`] and then
/// [`LocalConnections::close_connection`] for `conn_id`, is the registry it was.
pub proof fn law_close_undoes_register(
    before: Map<u128, UnboundedSender<Vec<u8>>>,
    conn_id: u128,
    tx: UnboundedSender<Vec<u8>>,
)
    requires
        !before.contains_key(conn_id),
    ensures
        before.insert(conn_id, tx).remove(conn_id) == before,
{
    assert(before.insert(conn_id, tx).remove(conn_id) =~= before);
}

/// Law: registering a connection under an id that is in use replaces the
/// earlier connection: the id then maps to the new sender and every other id
/// keeps its entry; routing for that id goes to the new sender.
pub proof fn law_register_replaces(
    before: Map<u128, UnboundedSender<Vec<u8>>>,
    conn_id: u128,
    tx: UnboundedSender<Vec<u8>>,
)
    ensures
        before.insert(conn_id, tx)[conn_id] == tx,
        before.insert(conn_id, tx).dom() == before.dom().insert(conn_id),
        forall|k: u128|
            k != conn_id && #[trigger] before.contains_key(k) ==> before.insert(conn_id, tx)[k]
                == before[k],
{
}

/// Law: the local address names the port: after the ten characters
/// `127.0.0.1:` come only ASCII digits, and their base-10 value is `port`.
pub proof fn law_local_addr_names_the_port(port: u16)
    ensures
        ("127.0.0.1:"@ + decimal(port as nat)).subrange(0, 10) == "127.0.0.1:"@,
        forall|i: int|
            10 <= i < ("127.0.0.1:"@ + decimal(port as nat)).len() ==> 0x30 <= #[trigger] ((
            "127.0.0.1:"@ + decimal(port as nat))[i] as u32) <= 0x39,
        digits_value(("127.0.0.1:"@ + decimal(port as nat)).skip(10)) == port,
{
    reveal_strlit("127.0.0.1:");
    law_decimal_reads_back(port as nat);
    let s = "127.0.0.1:"@ + decimal(port as nat);
    assert(s.subrange(0, 10) =~= "127.0.0.1:"@);
    assert(s.skip(10) =~= decimal(port as nat));
    assert forall|i: int| 10 <= i < s.len() implies 0x30 <= #[trigger] (s[i] as u32) <= 0x39 by {
        assert(s[i] == decimal(port as nat)[i - 10]);
    }
}

/// The address of the local service on `port`: `127.0.0.1:<port>`.
pub fn local_addr(port: u16) -> (r: String)
    ensures
        r@ == "127.0.0.1:"@ + decimal(port as nat),
{
    let mut out = "127.0.0.1:".to_owned();
    push_decimal(&mut out, port);
    out
}

/// The `Data` message that carries `chunk`, read from the local socket of
/// connection `conn_id`, to the relay.
pub fn data_message(conn_id: u128, chunk: &[u8]) -> (r: AgentMessage)
    requires
        chunk@.len() <= usize::MAX / 4 * 3,
    ensures
        r matches AgentMessage::Data { conn_id: c, payload } && c == conn_id && payload@
            == standard_encoded(chunk@),
        r matches AgentMessage::Data { payload, .. } && standard_decoded(payload@) == Some(chunk@),
{
    AgentMessage::Data { conn_id, payload: standard_encode(chunk) }
}

/// What a local connection's reader does after a successful read.
#[derive(Debug, PartialEq, Eq)]
pub enum LocalReadStep {
    /// Send this message to the relay and read again.
    Forward(AgentMessage),
    /// The local peer is done; the connection ends.
    Finish,
}

/// The reader's rule after reading `chunk` from the local socket of connection
/// `conn_id`: a TCP read of no bytes is the end of the stream and finishes the
/// connection; any other read, an empty UDP datagram included, is forwarded to
/// the relay as a `Data` message.
pub fn on_local_read(transport: Transport, conn_id: u128, chunk: &[u8]) -> (r: LocalReadStep)
    requires
        chunk@.len() <= usize::MAX / 4 * 3,
    ensures
        (transport is Tcp && chunk@.len() == 0) ==> r is Finish,
        !(transport is Tcp && chunk@.len() == 0) ==> (r matches LocalReadStep::Forward(
            AgentMessage::Data { conn_id: c, payload },
        ) && c == conn_id && payload@ == standard_encoded(chunk@)),
{
    match transport {
        Transport::Tcp => {
            if chunk.len() == 0 {
                return LocalReadStep::Finish;
            }
        },
        Transport::Udp => {},
    }
    LocalReadStep::Forward(data_message(conn_id, chunk))
}

/// The message a local connection sends to the relay once, when it ends.
pub fn closing_message(conn_id: u128) -> (r: AgentMessage)
    ensures
        r == (AgentMessage::CloseConnection { conn_id }),
{
    AgentMessage::CloseConnection { conn_id }
}

} // verus!
