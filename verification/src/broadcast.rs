//! The broadcast engine and what the runtime takes on trust about it.
//!
//! The engine is `plumtree::Node`. It sorts the neighbors of a node into
//! eager and lazy peers, remembers which messages it has seen and decides
//! what to forward, to announce, to graft and to prune. The runtime only feeds
//! it and draws its actions. Nothing in this module is proved: each function
//! below hands its arguments to one method of the engine, and its contract
//! says what that method's source shows.
//!
//! The names of this module speak of an engine as a whole, the seeds of its
//! hash sets included. What an engine does next is a function of that whole
//! and of what it is handed. Two engines that were made alike may still walk
//! their peers in different orders, so nothing is said of an engine that was
//! just made but that its queue is empty.
use crate::message::{GossipMessage, GraftMessage, IhaveMessage, Message, PlumtreeMessage, PruneMessage};
use crate::node::{NodeId, System};
use plumtree::message::GossipMessage as EngineGossip;
use plumtree::message::GraftMessage as EngineGraft;
use plumtree::message::IhaveMessage as EngineIhave;
use plumtree::message::Message as EngineMessage;
use plumtree::message::ProtocolMessage;
use plumtree::message::PruneMessage as EnginePrune;
use plumtree::Action;
use vstd::prelude::*;

verus! {

/// What the broadcast engine asks its driver to do.
#[derive(Debug, Clone, PartialEq, Eq)]
#[allow(inconsistent_fields)]
pub enum BroadcastAction {
    /// Send `message` to the node `destination`.
    Send { destination: NodeId, message: PlumtreeMessage },
    /// Hand `message` to the application.
    Deliver { message: Message },
}

/// The broadcast engine of a node of this library: `plumtree::Node`.
/// Verus sees nothing inside it; the engine is reached through the functions
/// below and spoken of through the names above them.
#[derive(Debug)]
#[verifier::external_body]
pub struct BroadcastEngine {
    inner: plumtree::Node<System>,
}

/// The actions that `engine` has queued and its driver has not drawn yet,
/// oldest first.
pub uninterp spec fn broadcast_pending(engine: BroadcastEngine) -> Seq<BroadcastAction>;

/// The engine that `engine` becomes when its node broadcasts `message`.
pub uninterp spec fn broadcast_after_broadcast(engine: BroadcastEngine, message: Message) -> BroadcastEngine;

/// The engine that `engine` becomes when it handles `message`.
pub uninterp spec fn broadcast_after_message(engine: BroadcastEngine, message: PlumtreeMessage) -> BroadcastEngine;

/// The engine that `engine` becomes when it learns that `node` is a neighbor.
pub uninterp spec fn broadcast_after_neighbor_up(engine: BroadcastEngine, node: NodeId) -> BroadcastEngine;

/// The engine that `engine` becomes when it learns that `node` is no longer
/// a neighbor.
pub uninterp spec fn broadcast_after_neighbor_down(engine: BroadcastEngine, node: NodeId) -> BroadcastEngine;

/// The engine that `engine` becomes when its driver draws its oldest action.
pub uninterp spec fn broadcast_after_poll(engine: BroadcastEngine) -> BroadcastEngine;

/// The engine that `engine` becomes when its driver draws `count` actions.
pub open spec fn broadcast_polled(engine: BroadcastEngine, count: nat) -> BroadcastEngine
    decreases count,
{
    if count == 0 {
        engine
    } else {
        broadcast_after_poll(broadcast_polled(engine, (count - 1) as nat))
    }
}

/// Calls `plumtree::Node::new`, which makes an engine with the default
/// options. Its source starts the engine with an empty action queue.
#[verifier::external_body]
pub(crate) fn new_engine(id: NodeId) -> (engine: BroadcastEngine)
    ensures
        broadcast_pending(engine) == Seq::<BroadcastAction>::empty(),
{
    BroadcastEngine { inner: plumtree::Node::new(id) }
}

/// Calls `plumtree::Node::broadcast_message` with the engine's form of
/// `message`. What the engine queues depends on its peers, so the contract
/// only names the outcome.
#[verifier::external_body]
pub(crate) fn broadcast_message(engine: &mut BroadcastEngine, message: Message)
    ensures
        *final(engine) == broadcast_after_broadcast(*old(engine), message),
{
    engine.inner.broadcast_message(EngineMessage { id: message.id, payload: message.payload })
}

/// Calls `plumtree::Node::handle_protocol_message` with the engine's form of
/// `message`, and drops the flag that it returns. What the engine does with a
/// message depends on what it has seen before, so the contract only names the
/// outcome.
#[verifier::external_body]
pub(crate) fn handle_protocol_message(engine: &mut BroadcastEngine, message: PlumtreeMessage)
    ensures
        *final(engine) == broadcast_after_message(*old(engine), message),
{
    engine.inner.handle_protocol_message(match message {
        PlumtreeMessage::Gossip(GossipMessage { sender, message: m, round }) => ProtocolMessage::Gossip(EngineGossip { sender, message: EngineMessage { id: m.id, payload: m.payload }, round }),
        PlumtreeMessage::Ihave(IhaveMessage { sender, message_id, round, realtime }) => ProtocolMessage::Ihave(EngineIhave { sender, message_id, round, realtime }),
        PlumtreeMessage::Graft(GraftMessage { sender, message_id, round }) => ProtocolMessage::Graft(EngineGraft { sender, message_id, round }),
        PlumtreeMessage::Prune(PruneMessage { sender }) => ProtocolMessage::Prune(EnginePrune { sender }),
    });
}

/// Calls `plumtree::Node::handle_neighbor_up`. What the engine queues for a
/// new neighbor depends on the messages that it keeps, so the contract only
/// names the outcome.
#[verifier::external_body]
pub(crate) fn handle_neighbor_up(engine: &mut BroadcastEngine, node: &NodeId)
    ensures
        *final(engine) == broadcast_after_neighbor_up(*old(engine), *node),
{
    engine.inner.handle_neighbor_up(node)
}

/// Calls `plumtree::Node::handle_neighbor_down`. The contract only names the
/// outcome.
#[verifier::external_body]
pub(crate) fn handle_neighbor_down(engine: &mut BroadcastEngine, node: &NodeId)
    ensures
        *final(engine) == broadcast_after_neighbor_down(*old(engine), *node),
{
    engine.inner.handle_neighbor_down(node)
}

/// Calls `plumtree::Node::poll_action`, which takes the oldest action off the
/// engine's queue and does nothing else. The contract states that: on an
/// empty queue the engine stays as it is and nothing comes back; otherwise the
/// front of the queue comes back, field for field, and the rest stays queued.
#[verifier::external_body]
pub(crate) fn poll_action(engine: &mut BroadcastEngine) -> (action: Option<BroadcastAction>)
    ensures
        action.is_none() <==> broadcast_pending(*old(engine)).len() == 0,
        action.is_none() ==> *final(engine) == *old(engine),
        action.is_some() ==> action.unwrap() == broadcast_pending(*old(engine)).first()
            && *final(engine) == broadcast_after_poll(*old(engine))
            && broadcast_pending(*final(engine)) == broadcast_pending(*old(engine)).drop_first(),
{
    Some(match engine.inner.poll_action()? {
        Action::Deliver { message: m } => BroadcastAction::Deliver { message: Message { id: m.id, payload: m.payload } },
        Action::Send { destination, message } => BroadcastAction::Send { destination, message: match message {
            ProtocolMessage::Gossip(EngineGossip { sender, message: m, round }) => PlumtreeMessage::Gossip(GossipMessage { sender, message: Message { id: m.id, payload: m.payload }, round }),
            ProtocolMessage::Ihave(EngineIhave { sender, message_id, round, realtime }) => PlumtreeMessage::Ihave(IhaveMessage { sender, message_id, round, realtime }),
            ProtocolMessage::Graft(EngineGraft { sender, message_id, round }) => PlumtreeMessage::Graft(GraftMessage { sender, message_id, round }),
            ProtocolMessage::Prune(EnginePrune { sender }) => PlumtreeMessage::Prune(PruneMessage { sender }),
        } },
    })
}

} // verus!
