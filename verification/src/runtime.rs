//! The model of the runtime: what a node and its service hold, as
//! mathematical values, and what driving the node does to them.
//!
//! The executable runtime is held to the functions of this module. They say
//! in which order the engines and the inbox are drained and where each action
//! goes. What an engine answers is named, not defined: the functions take the
//! engines' answers as they come.
use crate::broadcast;
use crate::broadcast::{
    broadcast_after_broadcast, broadcast_after_message, broadcast_after_neighbor_down,
    broadcast_after_neighbor_up, broadcast_pending, BroadcastAction, BroadcastEngine,
};
use crate::error::{Error, ErrorKind};
use crate::membership;
use crate::membership::{
    membership_after_message, membership_pending, MembershipAction, MembershipEngine,
};
use crate::message::{HyparviewMessage, Message};
use crate::node::{Delivery, LocalNodeId, MessageId, NodeId};
use crate::rpc::{cast_to, Cast, RpcMessage};
use crate::service::ServiceView;
use vstd::prelude::*;

verus! {

/// What a node holds, as mathematical values.
#[verifier::ext_equal]
pub ghost struct NodeView {
    /// The identifier of the node.
    pub id: NodeId,
    /// The sequence number of the next broadcast.
    pub seqno: u64,
    /// Whether the node has run out of sequence numbers.
    pub halted: bool,
    /// The membership engine.
    pub membership: MembershipEngine,
    /// The broadcast engine.
    pub broadcast: BroadcastEngine,
    /// The messages that are ready for the application, oldest first.
    pub deliverable: Seq<Message>,
}

/// A node together with the service of its process.
#[verifier::ext_equal]
pub ghost struct Runtime {
    /// The node.
    pub node: NodeView,
    /// The service that the node was made in.
    pub service: ServiceView,
}

/// The outcome of a poll: what it returned and what it left behind.
#[verifier::ext_equal]
pub ghost struct Polled {
    /// What the poll left behind.
    pub runtime: Runtime,
    /// What the poll returned.
    pub result: Result<Delivery, Error>,
}

/// The number of passes after which a poll has always come to rest: the
/// first empties the inbox, the second the queues that the messages of the
/// inbox filled, and the third finds nothing to do.
pub open spec fn poll_passes() -> nat {
    3
}

/// The messages that `actions` ask to deliver, in the order of the actions.
pub open spec fn deliveries(actions: Seq<BroadcastAction>) -> Seq<Message>
    decreases actions.len(),
{
    if actions.len() == 0 {
        Seq::<Message>::empty()
    } else {
        match actions.first() {
            BroadcastAction::Deliver { message } => seq![message] + deliveries(
                actions.drop_first(),
            ),
            BroadcastAction::Send { .. } => deliveries(actions.drop_first()),
        }
    }
}

impl NodeView {
    /// The message that the node stamps `payload` with: the payload under the
    /// identifier of the node and its next sequence number.
    pub open spec fn stamped(self, payload: Vec<u8>) -> Message {
        Message { id: MessageId { node_id: self.id, seqno: self.seqno }, payload }
    }

    /// The node after it was asked to broadcast `payload`. A node that has a
    /// sequence number left stamps the payload, moves on to the next number
    /// and hands the message to the broadcast engine. A node whose sequence
    /// numbers would wrap halts, and a halted node stays as it is.
    pub open spec fn after_broadcast(self, payload: Vec<u8>) -> NodeView {
        if self.halted || self.seqno == u64::MAX {
            NodeView { halted: true, ..self }
        } else {
            NodeView {
                seqno: (self.seqno + 1) as u64,
                broadcast: broadcast_after_broadcast(self.broadcast, self.stamped(payload)),
                ..self
            }
        }
    }

    /// The sequence numbers of a node increase by one from broadcast to
    /// broadcast: where the node stamps two payloads in a row, the second
    /// stamp holds the identifier of the node again and the sequence number
    /// that follows the one of the first.
    pub proof fn lemma_stamps_increase(self, first: Vec<u8>, second: Vec<u8>)
        requires
            !self.after_broadcast(first).after_broadcast(second).halted,
        ensures
            self.after_broadcast(first).stamped(second).id.node_id == self.stamped(
                first,
            ).id.node_id,
            self.after_broadcast(first).stamped(second).id.seqno == self.stamped(first).id.seqno
                + 1,
            self.after_broadcast(first).after_broadcast(second).seqno == self.seqno + 2,
    {
    }

    /// The node after a message from its inbox was handed to the engine of
    /// the message's protocol.
    pub open spec fn after_rpc_message(self, message: RpcMessage) -> NodeView {
        match message {
            RpcMessage::Hyparview(m) => NodeView {
                membership: membership_after_message(self.membership, m),
                ..self
            },
            RpcMessage::Plumtree(m) => NodeView {
                broadcast: broadcast_after_message(self.broadcast, m),
                ..self
            },
        }
    }
}

impl Runtime {
    /// The local identifier of the node.
    pub open spec fn local_id(self) -> LocalNodeId {
        self.node.id.local_id
    }

    /// Whether the service knows the node.
    pub open spec fn registered(self) -> bool {
        self.service.registered(self.local_id())
    }

    /// The messages that wait in the inbox of the node, oldest first.
    pub open spec fn inbox(self) -> Seq<RpcMessage> {
        self.service.inbox(self.local_id())
    }

    /// The runtime with `engine` as the membership engine of the node.
    pub open spec fn with_membership(self, engine: MembershipEngine) -> Runtime {
        Runtime { node: NodeView { membership: engine, ..self.node }, ..self }
    }

    /// The runtime with `engine` as the broadcast engine of the node.
    pub open spec fn with_broadcast(self, engine: BroadcastEngine) -> Runtime {
        Runtime { node: NodeView { broadcast: engine, ..self.node }, ..self }
    }

    /// The runtime after an action of the membership engine was handled: a
    /// message goes to the transport, a neighbor event goes to the broadcast
    /// engine, and a disconnection is only taken note of.
    pub open spec fn after_membership_action(self, action: MembershipAction) -> Runtime {
        match action {
            MembershipAction::Send { destination, message } => Runtime {
                service: self.service.sent(destination, RpcMessage::Hyparview(message)),
                ..self
            },
            MembershipAction::NeighborUp { node } => self.with_broadcast(
                broadcast_after_neighbor_up(self.node.broadcast, node),
            ),
            MembershipAction::NeighborDown { node } => self.with_broadcast(
                broadcast_after_neighbor_down(self.node.broadcast, node),
            ),
            MembershipAction::Disconnect { node } => self,
        }
    }

    /// The runtime after `actions` of the membership engine were handled in
    /// turn.
    pub open spec fn after_membership_actions(self, actions: Seq<MembershipAction>) -> Runtime
        decreases actions.len(),
    {
        if actions.len() == 0 {
            self
        } else {
            self.after_membership_action(actions.first()).after_membership_actions(
                actions.drop_first(),
            )
        }
    }

    /// The runtime after an action of the broadcast engine was handled: a
    /// message goes to the transport or to the back of the deliverable queue.
    pub open spec fn after_broadcast_action(self, action: BroadcastAction) -> Runtime {
        match action {
            BroadcastAction::Send { destination, message } => Runtime {
                service: self.service.sent(destination, RpcMessage::Plumtree(message)),
                ..self
            },
            BroadcastAction::Deliver { message } => Runtime {
                node: NodeView { deliverable: self.node.deliverable.push(message), ..self.node },
                ..self
            },
        }
    }

    /// The runtime after `actions` of the broadcast engine were handled in
    /// turn.
    pub open spec fn after_broadcast_actions(self, actions: Seq<BroadcastAction>) -> Runtime
        decreases actions.len(),
    {
        if actions.len() == 0 {
            self
        } else {
            self.after_broadcast_action(actions.first()).after_broadcast_actions(
                actions.drop_first(),
            )
        }
    }

    /// The runtime after a message from the inbox was handed to the engine of
    /// its protocol.
    pub open spec fn after_rpc_message(self, message: RpcMessage) -> Runtime {
        Runtime { node: self.node.after_rpc_message(message), ..self }
    }

    /// The runtime after `messages` from the inbox were handed to the engines
    /// in turn.
    pub open spec fn after_rpc_messages(self, messages: Seq<RpcMessage>) -> Runtime
        decreases messages.len(),
    {
        if messages.len() == 0 {
            self
        } else {
            self.after_rpc_message(messages.first()).after_rpc_messages(messages.drop_first())
        }
    }

    /// The runtime after every action that the membership engine had queued
    /// was drawn and handled, oldest first.
    pub open spec fn membership_drained(self) -> Runtime {
        let pending = membership_pending(self.node.membership);
        self.with_membership(
            membership::membership_polled(self.node.membership, pending.len()),
        ).after_membership_actions(pending)
    }

    /// The runtime after every action that the broadcast engine had queued
    /// was drawn and handled, oldest first.
    pub open spec fn broadcast_drained(self) -> Runtime {
        let pending = broadcast_pending(self.node.broadcast);
        self.with_broadcast(
            broadcast::broadcast_polled(self.node.broadcast, pending.len()),
        ).after_broadcast_actions(pending)
    }

    /// The runtime after both engines were drained: the membership engine
    /// first, so that the broadcast engine has heard of every neighbor that
    /// went down before it is asked for an action.
    pub open spec fn engines_drained(self) -> Runtime {
        self.membership_drained().broadcast_drained()
    }

    /// The runtime after every message of the inbox was taken and handed to
    /// its engine, oldest first.
    pub open spec fn inbox_drained(self) -> Runtime {
        Runtime {
            service: self.service.with_inbox(self.local_id(), Seq::<RpcMessage>::empty()),
            ..self
        }.after_rpc_messages(self.inbox())
    }

    /// Whether a pass finds anything to do: an action of the membership
    /// engine, an action of the broadcast engine once the membership engine
    /// is drained, or a message in the inbox.
    pub open spec fn has_work(self) -> bool {
        ||| membership_pending(self.node.membership).len() > 0
        ||| broadcast_pending(self.membership_drained().node.broadcast).len() > 0
        ||| self.inbox().len() > 0
    }

    /// Whether nothing is left to do for the node: no message waits for the
    /// application or in the inbox, and neither engine has an action queued.
    pub open spec fn idle(self) -> bool {
        &&& self.node.deliverable.len() == 0
        &&& membership_pending(self.node.membership).len() == 0
        &&& broadcast_pending(self.node.broadcast).len() == 0
        &&& self.inbox().len() == 0
    }

    /// The outcome of handing out the oldest deliverable message.
    pub open spec fn delivered(self) -> Polled {
        Polled {
            runtime: Runtime {
                node: NodeView { deliverable: self.node.deliverable.drop_first(), ..self.node },
                ..self
            },
            result: Ok(Delivery::Ready(self.node.deliverable.first())),
        }
    }

    /// The outcome of driving the node for at most `passes` passes. The driver
    /// hands out the oldest deliverable message as soon as there is one.
    /// Otherwise it makes a pass: it drains the membership engine, then the
    /// broadcast engine, then the inbox. A node that the service does not know
    /// fails when its inbox is looked at. A pass that found nothing to do ends
    /// the drive; after any other pass the driver starts over.
    pub open spec fn driven(self, passes: nat) -> Polled
        decreases passes,
    {
        if self.node.deliverable.len() > 0 {
            self.delivered()
        } else if passes == 0 {
            Polled { runtime: self, result: Ok(Delivery::NotReady) }
        } else if !self.registered() {
            Polled {
                runtime: self.engines_drained(),
                result: Err(Error { kind: ErrorKind::ServiceDown }),
            }
        } else if !self.has_work() {
            Polled { runtime: self, result: Ok(Delivery::NotReady) }
        } else {
            self.engines_drained().inbox_drained().driven((passes - 1) as nat)
        }
    }

    /// The outcome of a poll. A node that has run out of sequence numbers
    /// fails at once; any other node is driven until it comes to rest.
    pub open spec fn polled(self) -> Polled {
        if self.node.halted {
            Polled { runtime: self, result: Err(Error { kind: ErrorKind::SequenceWrap }) }
        } else {
            self.driven(poll_passes())
        }
    }
}

impl Runtime {
    /// Handling actions of the membership engine leaves the engine itself,
    /// the identity of the node, what waits for the application and the
    /// registry as they are.
    pub proof fn lemma_membership_actions_frame(self, actions: Seq<MembershipAction>)
        ensures
            self.after_membership_actions(actions).node == (NodeView {
                broadcast: self.after_membership_actions(actions).node.broadcast,
                ..self.node
            }),
            self.after_membership_actions(actions).service == (ServiceView {
                outgoing: self.after_membership_actions(actions).service.outgoing,
                ..self.service
            }),
        decreases actions.len(),
    {
        if actions.len() > 0 {
            self.after_membership_action(actions.first()).lemma_membership_actions_frame(
                actions.drop_first(),
            );
        }
    }

    /// Handling actions of the broadcast engine leaves both engines, the
    /// identity of the node and the registry as they are.
    pub proof fn lemma_broadcast_actions_frame(self, actions: Seq<BroadcastAction>)
        ensures
            self.after_broadcast_actions(actions).node == (NodeView {
                deliverable: self.after_broadcast_actions(actions).node.deliverable,
                ..self.node
            }),
            self.after_broadcast_actions(actions).service == (ServiceView {
                outgoing: self.after_broadcast_actions(actions).service.outgoing,
                ..self.service
            }),
        decreases actions.len(),
    {
        if actions.len() > 0 {
            self.after_broadcast_action(actions.first()).lemma_broadcast_actions_frame(
                actions.drop_first(),
            );
        }
    }

    /// Draining the engines changes neither the identity of the node nor the
    /// registry: the node is registered after it if and only if it was before,
    /// with the same inbox.
    pub proof fn lemma_engines_drained_frame(self)
        ensures
            self.engines_drained().node.id == self.node.id,
            self.engines_drained().service.inboxes == self.service.inboxes,
            self.membership_drained().node.id == self.node.id,
            self.membership_drained().service.inboxes == self.service.inboxes,
    {
        let pending = membership_pending(self.node.membership);
        let polled = self.with_membership(
            membership::membership_polled(self.node.membership, pending.len()),
        );
        polled.lemma_membership_actions_frame(pending);
        let drained = self.membership_drained();
        let queued = broadcast_pending(drained.node.broadcast);
        drained.with_broadcast(
            broadcast::broadcast_polled(drained.node.broadcast, queued.len()),
        ).lemma_broadcast_actions_frame(queued);
    }

    /// A poll of a node that has nothing to do says so and changes nothing:
    /// where the node is registered and has sequence numbers left, no message
    /// waits for the application or in the inbox, and neither engine has an
    /// action queued, the poll returns `NotReady` and leaves the node and the
    /// service as they are.
    pub proof fn lemma_idle_poll_is_not_ready(self)
        requires
            !self.node.halted,
            self.registered(),
            self.idle(),
        ensures
            self.polled() == (Polled { runtime: self, result: Ok(Delivery::NotReady) }),
    {
        assert(self.with_membership(self.node.membership) =~= self);
        assert(self.membership_drained() == self);
        assert(!self.has_work());
    }

    /// A poll hands out what waits for the application before it does
    /// anything else: the oldest deliverable message comes back, the others
    /// stay queued in their order, and neither an engine nor the inbox nor the
    /// service is touched.
    pub proof fn lemma_poll_delivers_first(self)
        requires
            !self.node.halted,
            self.node.deliverable.len() > 0,
        ensures
            self.polled().result == Ok::<Delivery, Error>(
                Delivery::Ready(self.node.deliverable.first()),
            ),
            self.polled().runtime.node == (NodeView {
                deliverable: self.node.deliverable.drop_first(),
                ..self.node
            }),
            self.polled().runtime.service == self.service,
    {
    }

    /// The runtime hands on what the broadcast engine asks to deliver, each
    /// message once and in the order of the engine: after a run of actions
    /// the deliverable queue has grown by the messages of the `Deliver`
    /// actions among them, and by nothing else.
    pub proof fn lemma_deliveries_follow_engine(self, actions: Seq<BroadcastAction>)
        ensures
            self.after_broadcast_actions(actions).node.deliverable == self.node.deliverable
                + deliveries(actions),
        decreases actions.len(),
    {
        if actions.len() == 0 {
            assert(self.node.deliverable + deliveries(actions) =~= self.node.deliverable);
        } else {
            let next = self.after_broadcast_action(actions.first());
            next.lemma_deliveries_follow_engine(actions.drop_first());
            assert(self.node.deliverable + deliveries(actions) =~= next.node.deliverable
                + deliveries(actions.drop_first()));
        }
    }

    /// Handing messages of the inbox to the engines changes neither the
    /// service nor anything of the node but its engines.
    pub proof fn lemma_rpc_messages_frame(self, messages: Seq<RpcMessage>)
        ensures
            self.after_rpc_messages(messages).service == self.service,
            self.after_rpc_messages(messages).node == (NodeView {
                membership: self.after_rpc_messages(messages).node.membership,
                broadcast: self.after_rpc_messages(messages).node.broadcast,
                ..self.node
            }),
        decreases messages.len(),
    {
        if messages.len() > 0 {
            self.after_rpc_message(messages.first()).lemma_rpc_messages_frame(
                messages.drop_first(),
            );
        }
    }

    /// A pass drains the inbox to emptiness: what a registered node finds in
    /// its inbox is handed to the engines in one go, and the node stays
    /// registered.
    pub proof fn lemma_pass_empties_inbox(self)
        requires
            self.registered(),
        ensures
            self.engines_drained().inbox_drained().registered(),
            self.engines_drained().inbox_drained().inbox().len() == 0,
    {
        self.lemma_engines_drained_frame();
        let engines = self.engines_drained();
        (Runtime {
            service: engines.service.with_inbox(engines.local_id(), Seq::<RpcMessage>::empty()),
            ..engines
        }).lemma_rpc_messages_frame(engines.inbox());
    }

    /// Driving a node changes neither its identifier nor its next sequence
    /// number, whatever the engines and the inbox hold: only a broadcast moves
    /// the sequence number.
    pub proof fn lemma_driving_keeps_stamp(self, passes: nat)
        ensures
            self.driven(passes).runtime.node.id == self.node.id,
            self.driven(passes).runtime.node.seqno == self.node.seqno,
            self.driven(passes).runtime.node.halted == self.node.halted,
        decreases passes,
    {
        let pending = membership_pending(self.node.membership);
        self.with_membership(
            membership::membership_polled(self.node.membership, pending.len()),
        ).lemma_membership_actions_frame(pending);
        let drained = self.membership_drained();
        let queued = broadcast_pending(drained.node.broadcast);
        drained.with_broadcast(
            broadcast::broadcast_polled(drained.node.broadcast, queued.len()),
        ).lemma_broadcast_actions_frame(queued);
        let engines = self.engines_drained();
        (Runtime {
            service: engines.service.with_inbox(engines.local_id(), Seq::<RpcMessage>::empty()),
            ..engines
        }).lemma_rpc_messages_frame(engines.inbox());
        if passes > 0 {
            engines.inbox_drained().lemma_driving_keeps_stamp((passes - 1) as nat);
        }
    }

    /// A poll changes neither the identifier of the node nor its next
    /// sequence number.
    pub proof fn lemma_poll_keeps_stamp(self)
        ensures
            self.polled().runtime.node.id == self.node.id,
            self.polled().runtime.node.seqno == self.node.seqno,
            self.polled().runtime.node.halted == self.node.halted,
    {
        self.lemma_driving_keeps_stamp(poll_passes());
    }

    /// A pass over a registered node that finds no work changes nothing.
    pub proof fn lemma_pass_without_work(self)
        requires
            self.registered(),
            !self.has_work(),
        ensures
            self.membership_drained() == self,
            self.engines_drained() == self,
            self.engines_drained().inbox_drained() == self,
    {
        assert(self.with_membership(self.node.membership) =~= self);
        assert(self.membership_drained() == self);
        assert(self.with_broadcast(self.node.broadcast) =~= self);
        assert(self.engines_drained() == self);
        assert(self.service.inboxes.insert(self.local_id().spec_value(), self.inbox())
            =~= self.service.inboxes);
        assert(self.inbox() =~= Seq::<RpcMessage>::empty());
        assert(self.service.with_inbox(self.local_id(), Seq::<RpcMessage>::empty())
            =~= self.service);
        assert(self.inbox_drained() =~= self);
    }
}

/// The cast by which the node `sender` takes leave of `peer`: a membership
/// `Disconnect` in its name.
pub open spec fn leave_notice(sender: NodeId, peer: NodeId) -> Cast {
    cast_to(peer, RpcMessage::Hyparview(HyparviewMessage::Disconnect { sender }))
}

impl ServiceView {
    /// The service after the node `sender` took leave of `peers`: one
    /// membership `Disconnect` from `sender` is queued for each peer, in the
    /// order of `peers`.
    pub open spec fn left(self, sender: NodeId, peers: Seq<NodeId>) -> ServiceView {
        ServiceView {
            outgoing: self.outgoing + peers.map_values(|peer: NodeId| leave_notice(sender, peer)),
            ..self
        }
    }
}

} // verus!
