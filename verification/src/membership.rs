//! The membership engine and what the runtime takes on trust about it.
//!
//! The engine is `hyparview::Node`. It keeps the active and the passive view
//! of a node and decides, with the random source that it was made with, which
//! peers enter and leave them. The runtime only feeds it and draws its
//! actions. Nothing in this module is proved: each function below hands its
//! arguments to one method of the engine, and its contract says what that
//! method's source shows.
//!
//! The names of this module speak of an engine as a whole, the state of its
//! random source included. What an engine does next is a function of that
//! whole and of what it is handed.
use crate::membership::MembershipAction::{NeighborDown, NeighborUp};
use crate::message::HyparviewMessage;
use crate::message::HyparviewMessage::{Disconnect, ForwardJoin, Join, Neighbor, Shuffle, ShuffleReply};
use crate::node::NodeId;
use hyparview::message::ProtocolMessage::Disconnect as EngineDisconnect;
use hyparview::message::ProtocolMessage::ForwardJoin as EngineForwardJoin;
use hyparview::message::ProtocolMessage::Join as EngineJoin;
use hyparview::message::ProtocolMessage::Neighbor as EngineNeighbor;
use hyparview::message::ProtocolMessage::Shuffle as EngineShuffle;
use hyparview::message::ProtocolMessage::ShuffleReply as EngineShuffleReply;
use hyparview::message::{DisconnectMessage, ForwardJoinMessage, JoinMessage, NeighborMessage, ShuffleMessage, ShuffleReplyMessage};
use hyparview::Action;
use hyparview::Action::Notify;
use hyparview::Event::NeighborDown as EngineNeighborDown;
use hyparview::Event::NeighborUp as EngineNeighborUp;
use hyparview::TimeToLive;
use rand::SeedableRng;
use rand::StdRng;
use vstd::prelude::*;

verus! {

/// What the membership engine asks its driver to do.
#[derive(Debug, Clone, PartialEq, Eq)]
pub enum MembershipAction {
    /// Send `message` to the node `destination`.
    Send { destination: NodeId, message: HyparviewMessage },
    /// `node` has entered the active view.
    NeighborUp { node: NodeId },
    /// `node` has left the active view.
    NeighborDown { node: NodeId },
    /// The connection to `node` is no longer needed.
    Disconnect { node: NodeId },
}

/// The random source of the membership engine: `rand::StdRng`.
#[verifier::external_type_specification]
#[verifier::external_body]
pub struct ExStdRng(StdRng);

/// The membership engine of a node of this library: `hyparview::Node`.
/// Verus sees nothing inside it; the engine is reached through the functions
/// below and spoken of through the names above them.
#[derive(Debug)]
#[verifier::external_body]
pub struct MembershipEngine {
    inner: hyparview::Node<NodeId, StdRng>,
}

/// The identifier that `engine` was made with.
pub uninterp spec fn membership_id(engine: MembershipEngine) -> NodeId;

/// The active view of `engine`, in the order in which the engine keeps it.
pub uninterp spec fn membership_active_view(engine: MembershipEngine) -> Seq<NodeId>;

/// The actions that `engine` has queued and its driver has not drawn yet,
/// oldest first.
pub uninterp spec fn membership_pending(engine: MembershipEngine) -> Seq<MembershipAction>;

/// The engine that `engine` becomes when it handles `message`.
pub uninterp spec fn membership_after_message(
    engine: MembershipEngine,
    message: HyparviewMessage,
) -> MembershipEngine;

/// The engine that `engine` becomes when its driver draws its oldest action.
pub uninterp spec fn membership_after_poll(engine: MembershipEngine) -> MembershipEngine;

/// The engine that `engine` becomes when its driver draws `count` actions.
pub open spec fn membership_polled(engine: MembershipEngine, count: nat) -> MembershipEngine
    decreases count,
{
    if count == 0 {
        engine
    } else {
        membership_after_poll(membership_polled(engine, (count - 1) as nat))
    }
}

/// The request that a node `id` sends to `contact` to join its cluster.
pub open spec fn join_request(id: NodeId, contact: NodeId) -> MembershipAction {
    MembershipAction::Send { destination: contact, message: HyparviewMessage::Join { sender: id } }
}

/// Calls `StdRng::from_seed` of `rand`, which makes the generator whose
/// stream the 32 bytes of `seed` determine. Nothing is claimed of the result.
#[verifier::external_body]
pub(crate) fn seeded_rng(seed: [u8; 32]) -> StdRng {
    StdRng::from_seed(seed)
}

/// Calls `hyparview::Node::new`, which makes an engine with the default
/// options. The contract claims what its source shows: the engine keeps `id`,
/// both views start empty and no action is queued.
#[verifier::external_body]
pub(crate) fn new_engine(id: NodeId, rng: StdRng) -> (engine: MembershipEngine)
    ensures
        membership_id(engine) == id,
        membership_active_view(engine) == Seq::<NodeId>::empty(),
        membership_pending(engine) == Seq::<MembershipAction>::empty(),
{
    MembershipEngine { inner: hyparview::Node::new(id, rng) }
}

/// Calls `hyparview::Node::join`. Its source queues one action and touches
/// nothing else: the `Join` message of this engine, addressed to `contact`,
/// goes to the back of the queue, whatever the views hold.
#[verifier::external_body]
pub(crate) fn join(engine: &mut MembershipEngine, contact: NodeId)
    ensures
        membership_id(*final(engine)) == membership_id(*old(engine)),
        membership_active_view(*final(engine)) == membership_active_view(*old(engine)),
        membership_pending(*final(engine)) == membership_pending(*old(engine)).push(
            join_request(membership_id(*old(engine)), contact),
        ),
{
    engine.inner.join(contact)
}

/// Calls `hyparview::Node::handle_protocol_message` with the engine's form of
/// `message`. What the engine does with a message depends on its views and on
/// its random source, so the contract only names the outcome; it adds that
/// the engine keeps its identifier, which no method of it assigns.
#[verifier::external_body]
pub(crate) fn handle_protocol_message(engine: &mut MembershipEngine, message: HyparviewMessage)
    ensures
        *final(engine) == membership_after_message(*old(engine), message),
        membership_id(*final(engine)) == membership_id(*old(engine)),
{
    engine.inner.handle_protocol_message(match message {
        Join { sender } => EngineJoin(JoinMessage { sender }),
        ForwardJoin { sender, new_node, ttl } => EngineForwardJoin(ForwardJoinMessage { sender, new_node, ttl: TimeToLive::new(ttl) }),
        Neighbor { sender, high_priority } => EngineNeighbor(NeighborMessage { sender, high_priority }),
        Shuffle { sender, origin, nodes, ttl } => EngineShuffle(ShuffleMessage { sender, origin, nodes, ttl: TimeToLive::new(ttl) }),
        ShuffleReply { sender, nodes } => EngineShuffleReply(ShuffleReplyMessage { sender, nodes }),
        Disconnect { sender } => EngineDisconnect(DisconnectMessage { sender }),
    })
}

/// Calls `hyparview::Node::poll_action`, which takes the oldest action off
/// the engine's queue and does nothing else. The contract states that: on an
/// empty queue the engine stays as it is and nothing comes back; otherwise the
/// front of the queue comes back, field for field, and the rest stays queued.
#[verifier::external_body]
pub(crate) fn poll_action(engine: &mut MembershipEngine) -> (action: Option<MembershipAction>)
    ensures
        membership_id(*final(engine)) == membership_id(*old(engine)),
        membership_active_view(*final(engine)) == membership_active_view(*old(engine)),
        action.is_none() <==> membership_pending(*old(engine)).len() == 0,
        action.is_none() ==> *final(engine) == *old(engine),
        action.is_some() ==> action.unwrap() == membership_pending(*old(engine)).first()
            && *final(engine) == membership_after_poll(*old(engine))
            && membership_pending(*final(engine)) == membership_pending(*old(engine)).drop_first(),
{
    Some(match engine.inner.poll_action()? {
        Action::Send { destination, message } => MembershipAction::Send { destination, message: match message {
            EngineJoin(JoinMessage { sender }) => Join { sender },
            EngineForwardJoin(ForwardJoinMessage { sender, new_node, ttl }) => ForwardJoin { sender, new_node, ttl: ttl.as_u8() },
            EngineNeighbor(NeighborMessage { sender, high_priority }) => Neighbor { sender, high_priority },
            EngineShuffle(ShuffleMessage { sender, origin, nodes, ttl }) => Shuffle { sender, origin, nodes, ttl: ttl.as_u8() },
            EngineShuffleReply(ShuffleReplyMessage { sender, nodes }) => ShuffleReply { sender, nodes },
            EngineDisconnect(DisconnectMessage { sender }) => Disconnect { sender }
        } },
        Notify { event: EngineNeighborUp { node } } => NeighborUp { node },
        Notify { event: EngineNeighborDown { node } } => NeighborDown { node },
        Action::Disconnect { node } => MembershipAction::Disconnect { node }
    })
}

/// Calls `hyparview::Node::active_view` and copies the slice that it returns.
#[verifier::external_body]
pub(crate) fn active_view(engine: &MembershipEngine) -> (view: Vec<NodeId>)
    ensures
        view@ == membership_active_view(*engine),
{
    engine.inner.active_view().to_vec()
}

} // verus!
