//! Application and protocol messages.
//!
//! The runtime stores and forwards these values and never interprets a
//! payload. Each type holds plain data, so a message can be written down,
//! compared and put on the wire without either protocol engine.
use crate::node::{MessageId, NodeId};
use vstd::prelude::*;

verus! {

/// Application message.
#[derive(Debug, Clone, PartialEq, Eq)]
pub struct Message {
    /// The identifier of the message.
    pub id: MessageId,
    /// The payload of the message.
    pub payload: Vec<u8>,
}

/// What an application message holds, as mathematical values.
pub ghost struct MessageView {
    /// The identifier of the message.
    pub id: MessageId,
    /// The bytes of the payload.
    pub payload: Seq<u8>,
}

impl View for Message {
    type V = MessageView;

    open spec fn view(&self) -> MessageView {
        MessageView { id: self.id, payload: self.payload@ }
    }
}

/// `GOSSIP` message: a payload on its way along the tree.
#[derive(Debug, Clone, PartialEq, Eq)]
pub struct GossipMessage {
    /// The sender of the message.
    pub sender: NodeId,
    /// The message to be diffused.
    pub message: Message,
    /// The hop count of the message.
    pub round: u16,
}

/// What a `GOSSIP` message holds, as mathematical values.
pub ghost struct GossipMessageView {
    /// The sender of the message.
    pub sender: NodeId,
    /// The content of the message to be diffused.
    pub message: MessageView,
    /// The hop count of the message.
    pub round: u16,
}

impl View for GossipMessage {
    type V = GossipMessageView;

    open spec fn view(&self) -> GossipMessageView {
        GossipMessageView { sender: self.sender, message: self.message@, round: self.round }
    }
}

/// `IHAVE` message: the announcement that the sender holds a message.
#[derive(Debug, Clone, PartialEq, Eq)]
pub struct IhaveMessage {
    /// The sender of the message.
    pub sender: NodeId,
    /// The identifier of the message that the sender holds.
    pub message_id: MessageId,
    /// The hop count of the message.
    pub round: u16,
    /// Whether the announcement follows a fresh payload or catches a new
    /// neighbor up.
    pub realtime: bool,
}

/// `GRAFT` message: the request to make the edge to the sender eager.
#[derive(Debug, Clone, PartialEq, Eq)]
pub struct GraftMessage {
    /// The sender of the message.
    pub sender: NodeId,
    /// The identifier of the message that the sender asks for, if any.
    pub message_id: Option<MessageId>,
    /// The hop count of the message.
    pub round: u16,
}

/// `PRUNE` message: the request to make the edge to the sender lazy.
#[derive(Debug, Clone, PartialEq, Eq)]
pub struct PruneMessage {
    /// The sender of the message.
    pub sender: NodeId,
}

/// Messages of the broadcast protocol.
#[derive(Debug, Clone, PartialEq, Eq)]
pub enum PlumtreeMessage {
    /// A payload on its way along the tree.
    Gossip(GossipMessage),
    /// The announcement that the sender holds a message.
    Ihave(IhaveMessage),
    /// The request to make the edge to the sender eager.
    Graft(GraftMessage),
    /// The request to make the edge to the sender lazy.
    Prune(PruneMessage),
}

/// What a message of the broadcast protocol holds, as mathematical values.
pub ghost enum PlumtreeMessageView {
    /// The content of a `GOSSIP` message.
    Gossip(GossipMessageView),
    /// An `IHAVE` message, which holds plain values only.
    Ihave(IhaveMessage),
    /// A `GRAFT` message, which holds plain values only.
    Graft(GraftMessage),
    /// A `PRUNE` message, which holds plain values only.
    Prune(PruneMessage),
}

impl View for PlumtreeMessage {
    type V = PlumtreeMessageView;

    open spec fn view(&self) -> PlumtreeMessageView {
        match *self {
            PlumtreeMessage::Gossip(m) => PlumtreeMessageView::Gossip(m@),
            PlumtreeMessage::Ihave(m) => PlumtreeMessageView::Ihave(m),
            PlumtreeMessage::Graft(m) => PlumtreeMessageView::Graft(m),
            PlumtreeMessage::Prune(m) => PlumtreeMessageView::Prune(m),
        }
    }
}

impl PlumtreeMessage {
    /// The node that the message names as its sender.
    pub open spec fn spec_sender(&self) -> NodeId {
        match *self {
            PlumtreeMessage::Gossip(m) => m.sender,
            PlumtreeMessage::Ihave(m) => m.sender,
            PlumtreeMessage::Graft(m) => m.sender,
            PlumtreeMessage::Prune(m) => m.sender,
        }
    }

    /// Returns the node that the message names as its sender.
    #[verifier::when_used_as_spec(spec_sender)]
    pub fn sender(&self) -> (r: NodeId)
        ensures
            r == self.spec_sender(),
    {
        match self {
            PlumtreeMessage::Gossip(m) => m.sender,
            PlumtreeMessage::Ihave(m) => m.sender,
            PlumtreeMessage::Graft(m) => m.sender,
            PlumtreeMessage::Prune(m) => m.sender,
        }
    }
}

/// Messages of the membership protocol.
#[derive(Debug, Clone, PartialEq, Eq)]
pub enum HyparviewMessage {
    /// Sent by a new node to its contact.
    Join { sender: NodeId },
    /// Carries a join request through the cluster for `ttl` more hops.
    ForwardJoin { sender: NodeId, new_node: NodeId, ttl: u8 },
    /// Asks the receiver to take the sender into its active view.
    Neighbor { sender: NodeId, high_priority: bool },
    /// Offers `nodes` of `origin` for the passive view of the receiver.
    Shuffle { sender: NodeId, origin: NodeId, nodes: Vec<NodeId>, ttl: u8 },
    /// Answers a `Shuffle` with nodes of the sender.
    ShuffleReply { sender: NodeId, nodes: Vec<NodeId> },
    /// Tells the receiver that the sender is no longer its neighbor.
    Disconnect { sender: NodeId },
}

/// What a message of the membership protocol holds, as mathematical values.
pub ghost enum HyparviewMessageView {
    /// The content of a `Join` message.
    Join { sender: NodeId },
    /// The content of a `ForwardJoin` message.
    ForwardJoin { sender: NodeId, new_node: NodeId, ttl: u8 },
    /// The content of a `Neighbor` message.
    Neighbor { sender: NodeId, high_priority: bool },
    /// The content of a `Shuffle` message.
    Shuffle { sender: NodeId, origin: NodeId, nodes: Seq<NodeId>, ttl: u8 },
    /// The content of a `ShuffleReply` message.
    ShuffleReply { sender: NodeId, nodes: Seq<NodeId> },
    /// The content of a `Disconnect` message.
    Disconnect { sender: NodeId },
}

impl View for HyparviewMessage {
    type V = HyparviewMessageView;

    open spec fn view(&self) -> HyparviewMessageView {
        match *self {
            HyparviewMessage::Join { sender } => HyparviewMessageView::Join { sender },
            HyparviewMessage::ForwardJoin { sender, new_node, ttl } => {
                HyparviewMessageView::ForwardJoin { sender, new_node, ttl }
            },
            HyparviewMessage::Neighbor { sender, high_priority } => {
                HyparviewMessageView::Neighbor { sender, high_priority }
            },
            HyparviewMessage::Shuffle { sender, origin, nodes, ttl } => {
                HyparviewMessageView::Shuffle { sender, origin, nodes: nodes@, ttl }
            },
            HyparviewMessage::ShuffleReply { sender, nodes } => {
                HyparviewMessageView::ShuffleReply { sender, nodes: nodes@ }
            },
            HyparviewMessage::Disconnect { sender } => HyparviewMessageView::Disconnect { sender },
        }
    }
}

impl HyparviewMessage {
    /// The node that the message names as its sender.
    pub open spec fn spec_sender(&self) -> NodeId {
        match *self {
            HyparviewMessage::Join { sender } => sender,
            HyparviewMessage::ForwardJoin { sender, .. } => sender,
            HyparviewMessage::Neighbor { sender, .. } => sender,
            HyparviewMessage::Shuffle { sender, .. } => sender,
            HyparviewMessage::ShuffleReply { sender, .. } => sender,
            HyparviewMessage::Disconnect { sender } => sender,
        }
    }

    /// Returns the node that the message names as its sender.
    #[verifier::when_used_as_spec(spec_sender)]
    pub fn sender(&self) -> (r: NodeId)
        ensures
            r == self.spec_sender(),
    {
        match self {
            HyparviewMessage::Join { sender } => *sender,
            HyparviewMessage::ForwardJoin { sender, .. } => *sender,
            HyparviewMessage::Neighbor { sender, .. } => *sender,
            HyparviewMessage::Shuffle { sender, .. } => *sender,
            HyparviewMessage::ShuffleReply { sender, .. } => *sender,
            HyparviewMessage::Disconnect { sender } => *sender,
        }
    }
}

} // verus!
