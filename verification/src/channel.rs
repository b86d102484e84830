//! Sending bytes to a local connection's writer task over a tokio channel.

use vstd::prelude::*;
use tokio::sync::mpsc::UnboundedSender;

verus! {

#[verifier::external_type_specification]
#[verifier::external_body]
#[verifier::reject_recursive_types(T)]
pub struct ExUnboundedSender<T>(UnboundedSender<T>);

/// Record of one send on a chunk channel. Only [`send_chunk`] builds one, so a
/// receipt shows which sender was used and which bytes were handed to it.
pub struct SendReceipt {
    sender: Ghost<UnboundedSender<Vec<u8>>>,
    chunk: Ghost<Seq<u8>>,
    back: Option<Vec<u8>>,
}

impl SendReceipt {
    /// The sender the bytes were handed to.
    pub closed spec fn sender(&self) -> UnboundedSender<Vec<u8>> {
        self.sender@
    }

    /// The bytes handed to the sender.
    pub closed spec fn chunk(&self) -> Seq<u8> {
        self.chunk@
    }

    /// The bytes tokio handed back because the receiving half was closed, if it did.
    pub closed spec fn returned(&self) -> Option<Vec<u8>> {
        self.back
    }

    /// Whether tokio accepted the bytes into the channel.
    pub fn accepted(&self) -> (r: bool)
        ensures
            r == (self.returned() is None),
    {
        self.back.is_none()
    }

    /// The bytes tokio handed back, if it refused them.
    pub fn into_returned(self) -> (r: Option<Vec<u8>>)
        ensures
            r == self.returned(),
    {
        self.back
    }
}

/// Calls `UnboundedSender::send` with `chunk`. Whether tokio accepts the value
/// depends on whether the receiving half is still open, which the contract
/// does not know. Claims: the receipt records `sender` and the bytes of
/// `chunk`, and when tokio refuses, the value it hands back (tokio returns
/// the value passed to `send`) is `chunk`.
#[verifier::external_body]
pub(crate) fn send_chunk(sender: &UnboundedSender<Vec<u8>>, chunk: Vec<u8>) -> (r: SendReceipt)
    ensures
        r.sender() == *sender,
        r.chunk() == chunk@,
        r.returned() matches Some(back) ==> back == chunk,
{
    let recorded = Ghost(chunk@);
    let back = sender.send(chunk).err().map(|e| e.0);
    SendReceipt { sender: Ghost(*sender), chunk: recorded, back }
}

} // verus!
