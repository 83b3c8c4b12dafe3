//! The casts that carry protocol messages between processes.
//!
//! A cast is a one-way notification: a procedure identifier, the options of
//! the sending client, the address of the receiving server, and the pair of
//! the receiving node's local identifier and a protocol message. This module
//! describes casts as plain values. Performing one is the transport's work.
use crate::message::{HyparviewMessage, HyparviewMessageView, PlumtreeMessage, PlumtreeMessageView};
use crate::node::{LocalNodeId, NodeAddr, NodeId};
use vstd::prelude::*;

pub mod hyparview;
pub mod plumtree;

verus! {

/// A protocol message of either engine, as it travels between nodes and
/// waits in the inbox of one.
#[derive(Debug, Clone, PartialEq, Eq)]
pub enum RpcMessage {
    /// A message of the membership protocol.
    Hyparview(HyparviewMessage),
    /// A message of the broadcast protocol.
    Plumtree(PlumtreeMessage),
}

/// What a protocol message holds, as mathematical values.
pub ghost enum RpcMessageView {
    /// The content of a message of the membership protocol.
    Hyparview(HyparviewMessageView),
    /// The content of a message of the broadcast protocol.
    Plumtree(PlumtreeMessageView),
}

impl View for RpcMessage {
    type V = RpcMessageView;

    open spec fn view(&self) -> RpcMessageView {
        match *self {
            RpcMessage::Hyparview(m) => RpcMessageView::Hyparview(m@),
            RpcMessage::Plumtree(m) => RpcMessageView::Plumtree(m@),
        }
    }
}

impl RpcMessage {
    /// The node that the message names as its sender.
    pub open spec fn spec_sender(&self) -> NodeId {
        match *self {
            RpcMessage::Hyparview(m) => m.spec_sender(),
            RpcMessage::Plumtree(m) => m.spec_sender(),
        }
    }

    /// Returns the node that the message names as its sender.
    #[verifier::when_used_as_spec(spec_sender)]
    pub fn sender(&self) -> (r: NodeId)
        ensures
            r == self.spec_sender(),
    {
        match self {
            RpcMessage::Hyparview(m) => m.sender(),
            RpcMessage::Plumtree(m) => m.sender(),
        }
    }
}

/// The priority that a client gives a cast unless told otherwise.
pub const DEFAULT_PRIORITY: u8 = 128;

/// The queue bound of the payload-bearing and the announcing casts.
pub const MAX_QUEUE_LEN: u64 = 4096;

/// Options of the client that sends a cast.
#[derive(Debug, Clone, Copy, PartialEq, Eq, Structural)]
pub struct CastOptions {
    /// The priority of the cast in the transmit queue.
    pub priority: u8,
    /// The number of queued messages beyond which the cast is discarded;
    /// `None` leaves the queue unbounded.
    pub max_queue_len: Option<u64>,
}

impl CastOptions {
    /// The options of a client that nobody has configured.
    pub open spec fn spec_default() -> CastOptions {
        CastOptions { priority: DEFAULT_PRIORITY, max_queue_len: None }
    }
}

impl Default for CastOptions {
    /// Returns the options of a client that nobody has configured.
    fn default() -> (r: CastOptions)
        ensures
            r == CastOptions::spec_default(),
    {
        CastOptions { priority: DEFAULT_PRIORITY, max_queue_len: None }
    }
}

/// A cast that is ready for the transport.
#[derive(Debug, Clone, PartialEq, Eq)]
pub struct Cast {
    /// Identifier of the procedure that the receiving server runs.
    pub procedure: u32,
    /// Options of the sending client.
    pub options: CastOptions,
    /// Address of the receiving server.
    pub server: NodeAddr,
    /// The node of the receiving process that the message is for.
    pub local_id: LocalNodeId,
    /// The protocol message.
    pub message: RpcMessage,
}

/// The procedure that carries `message`.
pub open spec fn procedure_of(message: RpcMessage) -> u32 {
    match message {
        RpcMessage::Hyparview(m) => hyparview::procedure_of(m),
        RpcMessage::Plumtree(m) => plumtree::procedure_of(m),
    }
}

/// The options of the client that sends `message`.
pub open spec fn options_of(message: RpcMessage) -> CastOptions {
    match message {
        RpcMessage::Hyparview(m) => CastOptions::spec_default(),
        RpcMessage::Plumtree(m) => plumtree::options_of(m),
    }
}

/// The cast that takes `message` to the node `peer`.
pub open spec fn cast_to(peer: NodeId, message: RpcMessage) -> Cast {
    Cast {
        procedure: procedure_of(message),
        options: options_of(message),
        server: peer.addr,
        local_id: peer.local_id,
        message,
    }
}

/// Describes the cast that takes `message` to the node `peer`: the procedure
/// and the client options of the message's family, the address of the peer's
/// process, and the peer's local identifier beside the message.
pub fn cast(peer: NodeId, message: RpcMessage) -> (r: Cast)
    ensures
        r == cast_to(peer, message),
{
    match message {
        RpcMessage::Hyparview(m) => hyparview::cast(peer, m),
        RpcMessage::Plumtree(PlumtreeMessage::Gossip(m)) => plumtree::gossip_cast(peer, m),
        RpcMessage::Plumtree(PlumtreeMessage::Ihave(m)) => plumtree::ihave_cast(peer, m),
        RpcMessage::Plumtree(PlumtreeMessage::Graft(m)) => plumtree::graft_cast(peer, m),
        RpcMessage::Plumtree(PlumtreeMessage::Prune(m)) => plumtree::prune_cast(peer, m),
    }
}

/// Whether `a` and `b` are messages of one protocol and of one kind.
pub open spec fn same_family(a: RpcMessage, b: RpcMessage) -> bool {
    match a {
        RpcMessage::Hyparview(x) => b is Hyparview && hyparview::same_family(x, b->Hyparview_0),
        RpcMessage::Plumtree(x) => b is Plumtree && plumtree::same_family(x, b->Plumtree_0),
    }
}

/// No two kinds of messages share a procedure: the procedure of a cast tells
/// which kind of message it carries.
pub proof fn lemma_procedure_tells_family(a: RpcMessage, b: RpcMessage)
    requires
        procedure_of(a) == procedure_of(b),
    ensures
        same_family(a, b),
{
}

} // verus!
