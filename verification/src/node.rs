//! Nodes: their identity, their inbox and the runtime that drives them.
//!
//! A node owns one membership engine and one broadcast engine. The runtime
//! hands their actions on: messages to send go to the service, neighbor events
//! of the membership engine go to the broadcast engine, and messages to
//! deliver are queued for the application. What the engines decide is theirs;
//! in which order they are asked, and where each of their answers goes, is
//! stated and proved here.
use crate::broadcast;
use crate::broadcast::{broadcast_pending, BroadcastAction, BroadcastEngine};
use crate::error::{Error, ErrorKind};
use crate::membership;
use crate::membership::{
    join_request, membership_active_view, membership_id, membership_pending, MembershipAction,
    MembershipEngine,
};
use crate::message::{HyparviewMessage, Message};
use crate::rpc::RpcMessage;
use crate::runtime::{leave_notice, NodeView, Polled, Runtime};
use crate::service::{Received, Service, ServiceView};
use plumtree::System as EngineTypes;
use std::collections::VecDeque;
use vstd::prelude::*;

verus! {

/// Identifier of a node that is unique within one process.
#[derive(Debug, Clone, Copy, PartialEq, Eq, Hash, PartialOrd, Ord, Structural)]
pub struct LocalNodeId(u64);

impl LocalNodeId {
    /// The identifier that wraps `id`.
    pub closed spec fn spec_new(id: u64) -> LocalNodeId {
        LocalNodeId(id)
    }

    /// The number that the identifier wraps.
    pub closed spec fn spec_value(&self) -> u64 {
        self.0
    }

    /// Makes the identifier that wraps `id`.
    #[verifier::when_used_as_spec(spec_new)]
    pub fn new(id: u64) -> (r: Self)
        ensures
            r == Self::spec_new(id),
            r.spec_value() == id,
    {
        LocalNodeId(id)
    }

    /// Returns the number that the identifier wraps.
    #[verifier::when_used_as_spec(spec_value)]
    pub fn value(&self) -> (r: u64)
        ensures
            r == self.spec_value(),
            *self == Self::spec_new(r),
    {
        self.0
    }

    /// An identifier is the number that it wraps and nothing more: wrapping
    /// and unwrapping undo each other.
    pub proof fn lemma_wraps(id: LocalNodeId, value: u64)
        ensures
            LocalNodeId::spec_new(id.spec_value()) == id,
            LocalNodeId::spec_new(value).spec_value() == value,
    {
    }
}

/// Transport address of a process: what a socket address holds, as numbers.
#[derive(Debug, Clone, Copy, PartialEq, Eq, Hash, Structural)]
#[allow(inconsistent_fields)]
pub enum NodeAddr {
    /// An IPv4 address and a port.
    V4 { ip: u32, port: u16 },
    /// An IPv6 address, a port, the flow information and the scope.
    V6 { ip: u128, port: u16, flowinfo: u32, scope_id: u32 },
}

/// Identifier of a node that is unique within a cluster.
#[derive(Debug, Clone, Copy, PartialEq, Eq, Hash, Structural)]
pub struct NodeId {
    /// Address of the process that hosts the node.
    pub addr: NodeAddr,
    /// Identifier of the node within that process.
    pub local_id: LocalNodeId,
}

/// Identifier of a broadcast message.
#[derive(Debug, Clone, Copy, PartialEq, Eq, Hash, Structural)]
pub struct MessageId {
    /// The node that broadcast the message.
    pub node_id: NodeId,
    /// Position of the message among those that the node broadcast.
    pub seqno: u64,
}

/// The sending side of the inbox of a node.
///
/// The registry of a service keeps one handle for each of its nodes. What is
/// sent through the handle waits in it, oldest first, until the node takes it.
#[derive(Debug)]
pub struct NodeHandle {
    local_id: LocalNodeId,
    messages: VecDeque<RpcMessage>,
}

impl View for NodeHandle {
    type V = Seq<RpcMessage>;

    /// The messages that wait in the inbox, oldest first.
    closed spec fn view(&self) -> Seq<RpcMessage> {
        self.messages@
    }
}

impl NodeHandle {
    /// The local identifier of the node that owns the inbox.
    pub closed spec fn spec_local_id(&self) -> LocalNodeId {
        self.local_id
    }

    /// Makes the handle of the node `local_id`, with an empty inbox.
    pub fn new(local_id: LocalNodeId) -> (handle: NodeHandle)
        ensures
            handle.spec_local_id() == local_id,
            handle@ == Seq::<RpcMessage>::empty(),
    {
        NodeHandle { local_id, messages: VecDeque::new() }
    }

    /// Returns the local identifier of the node that owns the inbox.
    #[verifier::when_used_as_spec(spec_local_id)]
    pub fn local_id(&self) -> (r: LocalNodeId)
        ensures
            r == self.spec_local_id(),
    {
        self.local_id
    }

    /// Puts `message` at the back of the inbox.
    pub fn send_rpc_message(&mut self, message: RpcMessage)
        ensures
            final(self)@ == old(self)@.push(message),
            final(self).spec_local_id() == old(self).spec_local_id(),
    {
        self.messages.push_back(message);
    }

    /// Takes the oldest message out of the inbox, if there is one.
    pub fn take_message(&mut self) -> (message: Option<RpcMessage>)
        ensures
            final(self).spec_local_id() == old(self).spec_local_id(),
            old(self)@.len() == 0 ==> message.is_none() && final(self)@ == old(self)@,
            old(self)@.len() > 0 ==> message == Some(old(self)@.first())
                && final(self)@ == old(self)@.drop_first(),
    {
        let message = self.messages.pop_front();
        proof {
            if old(self)@.len() > 0 {
                assert(self.messages@ =~= old(self).messages@.drop_first());
            }
        }
        message
    }
}

/// Marker of the types that the broadcast engine is instantiated with.
#[derive(Debug)]
pub struct System;

impl EngineTypes for System {
    type NodeId = NodeId;
    type MessageId = MessageId;
    type MessagePayload = Vec<u8>;
}

/// What a poll of a node found.
#[derive(Debug, Clone, PartialEq, Eq)]
pub enum Delivery {
    /// The next message for the application.
    Ready(Message),
    /// Nothing is ready: every queue is empty and neither engine has an
    /// action to hand out.
    NotReady,
}

/// A node of a cluster.
#[derive(Debug)]
pub struct Node {
    id: NodeId,
    hyparview_node: MembershipEngine,
    plumtree_node: BroadcastEngine,
    message_seqno: u64,
    halted: bool,
    deliverable_messages: VecDeque<Message>,
}

impl View for Node {
    type V = NodeView;

    closed spec fn view(&self) -> NodeView {
        NodeView {
            id: self.id,
            seqno: self.message_seqno,
            halted: self.halted,
            membership: self.hyparview_node,
            broadcast: self.plumtree_node,
            deliverable: self.deliverable_messages@,
        }
    }
}

impl Node {
    /// Makes a node of the process of `service` that starts its broadcasts at
    /// sequence number zero. See `with_initial_seqno`.
    pub fn new(service: &mut Service, seed: [u8; 32]) -> (r: Result<Node, Error>)
        ensures
            r.is_ok() <==> old(service)@.next_local_id < u64::MAX,
            r matches Err(e) ==> e.kind == ErrorKind::LocalIdsExhausted && final(service)@ == old(
                service,
            )@,
            r matches Ok(node) ==> node@.seqno == 0 && Node::fresh(
                node@,
                old(service)@,
                final(service)@,
            ),
    {
        Node::with_initial_seqno(service, seed, 0)
    }

    /// What holds of a node that was just made, and of the service before and
    /// after: the node has the address of the service and the local identifier
    /// that the service had next; it is registered with an empty inbox; its
    /// engines go by its identifier, know no peer and have nothing queued;
    /// nothing waits for the application.
    pub open spec fn fresh(node: NodeView, before: ServiceView, after: ServiceView) -> bool {
        &&& node.id == (NodeId {
            addr: before.addr,
            local_id: LocalNodeId::spec_new(before.next_local_id),
        })
        &&& !node.halted
        &&& node.deliverable == Seq::<Message>::empty()
        &&& membership_id(node.membership) == node.id
        &&& membership_active_view(node.membership) == Seq::<NodeId>::empty()
        &&& membership_pending(node.membership) == Seq::<MembershipAction>::empty()
        &&& broadcast_pending(node.broadcast) == Seq::<BroadcastAction>::empty()
        &&& after == (ServiceView {
            next_local_id: (before.next_local_id + 1) as u64,
            ..before
        }).with_inbox(node.id.local_id, Seq::<RpcMessage>::empty())
    }

    /// Makes a node of the process of `service` and registers it there. The
    /// node stamps its first broadcast with `seqno`. The membership engine
    /// draws its random choices from the generator that `seed` determines.
    /// Fails, and changes nothing, if the service has no local identifier
    /// left.
    pub fn with_initial_seqno(service: &mut Service, seed: [u8; 32], seqno: u64) -> (r: Result<
        Node,
        Error,
    >)
        ensures
            r.is_ok() <==> old(service)@.next_local_id < u64::MAX,
            r matches Err(e) ==> e.kind == ErrorKind::LocalIdsExhausted && final(service)@ == old(
                service,
            )@,
            r matches Ok(node) ==> node@.seqno == seqno && Node::fresh(
                node@,
                old(service)@,
                final(service)@,
            ),
    {
        let id = match service.generate_node_id() {
            Some(id) => id,
            None => {
                return Err(Error::new(ErrorKind::LocalIdsExhausted));
            },
        };
        let handle = NodeHandle::new(id.local_id);
        service.register_local_node(handle);
        let rng = membership::seeded_rng(seed);
        Ok(
            Node {
                id,
                hyparview_node: membership::new_engine(id, rng),
                plumtree_node: broadcast::new_engine(id),
                message_seqno: seqno,
                halted: false,
                deliverable_messages: VecDeque::new(),
            },
        )
    }

    /// Returns the identifier of the node.
    pub fn id(&self) -> (r: NodeId)
        ensures
            r == self@.id,
    {
        self.id
    }

    /// Returns the active view of the membership engine: the current
    /// neighbors of the node.
    pub fn active_view(&self) -> (r: Vec<NodeId>)
        ensures
            r@ == membership_active_view(self@.membership),
    {
        membership::active_view(&self.hyparview_node)
    }

    /// Starts joining the cluster of `contact_peer`: the membership engine
    /// queues a `Join` message in its own name for the contact, behind what
    /// it had queued. Nothing else changes, so a node may join again at any
    /// time.
    pub fn join(&mut self, contact_peer: NodeId)
        ensures
            final(self)@ == (NodeView { membership: final(self)@.membership, ..old(self)@ }),
            membership_id(final(self)@.membership) == membership_id(old(self)@.membership),
            membership_active_view(final(self)@.membership) == membership_active_view(
                old(self)@.membership,
            ),
            membership_pending(final(self)@.membership) == membership_pending(
                old(self)@.membership,
            ).push(join_request(membership_id(old(self)@.membership), contact_peer)),
    {
        membership::join(&mut self.hyparview_node, contact_peer);
    }

    /// Broadcasts `message`. The node stamps the payload with its identifier
    /// and its next sequence number, moves on to the following number and
    /// hands the message to the broadcast engine. A node whose sequence
    /// numbers would wrap halts instead: it hands nothing to the engine, now or
    /// later, and its polls fail.
    pub fn broadcast(&mut self, message: Vec<u8>)
        ensures
            final(self)@ == old(self)@.after_broadcast(message),
    {
        if self.halted || self.message_seqno == u64::MAX {
            self.halted = true;
            return ;
        }
        let mid = MessageId { node_id: self.id, seqno: self.message_seqno };
        self.message_seqno = self.message_seqno + 1;
        let m = Message { id: mid, payload: message };
        broadcast::broadcast_message(&mut self.plumtree_node, m);
    }

    /// The node together with `service`.
    pub open spec fn runtime(&self, service: &Service) -> Runtime {
        Runtime { node: self@, service: service@ }
    }

    /// Handles an action of the membership engine: a message goes to the
    /// transport, a neighbor event goes to the broadcast engine, and a
    /// disconnection is only taken note of.
    pub fn handle_hyparview_action(&mut self, service: &mut Service, action: MembershipAction)
        ensures
            final(self).runtime(final(service)) == old(self).runtime(
                old(service),
            ).after_membership_action(action),
    {
        match action {
            MembershipAction::Send { destination, message } => {
                let message = RpcMessage::Hyparview(message);
                service.send_message(destination, message);
            },
            MembershipAction::NeighborDown { node } => {
                broadcast::handle_neighbor_down(&mut self.plumtree_node, &node);
            },
            MembershipAction::NeighborUp { node } => {
                broadcast::handle_neighbor_up(&mut self.plumtree_node, &node);
            },
            MembershipAction::Disconnect { node } => {},
        }
    }

    /// Handles an action of the broadcast engine: a message goes to the
    /// transport or to the back of the deliverable queue.
    pub fn handle_plumtree_action(&mut self, service: &mut Service, action: BroadcastAction)
        ensures
            final(self).runtime(final(service)) == old(self).runtime(
                old(service),
            ).after_broadcast_action(action),
    {
        match action {
            BroadcastAction::Send { destination, message } => {
                let message = RpcMessage::Plumtree(message);
                service.send_message(destination, message);
            },
            BroadcastAction::Deliver { message } => {
                self.deliverable_messages.push_back(message);
            },
        }
    }

    /// Hands a message from the inbox to the engine of its protocol.
    pub fn handle_rpc_message(&mut self, message: RpcMessage)
        ensures
            final(self)@ == old(self)@.after_rpc_message(message),
            membership_id(final(self)@.membership) == membership_id(old(self)@.membership),
    {
        match message {
            RpcMessage::Hyparview(m) => {
                membership::handle_protocol_message(&mut self.hyparview_node, m);
            },
            RpcMessage::Plumtree(m) => {
                broadcast::handle_protocol_message(&mut self.plumtree_node, m);
            },
        }
    }

    /// Takes the node out of its cluster and out of its process: the service
    /// forgets the node, and a membership `Disconnect` from the node is queued
    /// for each peer of its active view, in the order of the view.
    pub fn leave(self, service: &mut Service)
        ensures
            final(service)@ == old(service)@.without(self@.id.local_id).left(
                self@.id,
                membership_active_view(self@.membership),
            ),
    {
        let id = self.id;
        service.deregister_local_node(id.local_id);
        let peers = membership::active_view(&self.hyparview_node);
        let ghost base = service@;
        let mut i: usize = 0;
        while i < peers.len()
            invariant
                i <= peers.len(),
                service@ == base.left(id, peers@.take(i as int)),
            decreases peers.len() - i,
        {
            let peer = peers[i];
            let message = HyparviewMessage::Disconnect { sender: id };
            let message = RpcMessage::Hyparview(message);
            service.send_message(peer, message);
            proof {
                let notice = |peer: NodeId| leave_notice(id, peer);
                assert(peers@.take(i + 1) =~= peers@.take(i as int).push(peer));
                assert(peers@.take(i + 1).map_values(notice) =~= peers@.take(i as int).map_values(
                    notice,
                ).push(notice(peer)));
                assert(service@ =~= base.left(id, peers@.take(i + 1)));
            }
            i = i + 1;
        }
        proof {
            assert(peers@.take(0) =~= Seq::<NodeId>::empty());
            assert(peers@.take(peers.len() as int) =~= peers@);
        }
    }

    /// Draws the actions of the membership engine and handles each, until the
    /// engine has none left. Says whether there was one.
    fn drain_membership(&mut self, service: &mut Service) -> (did_something: bool)
        ensures
            final(self).runtime(final(service)) == old(self).runtime(
                old(service),
            ).membership_drained(),
            did_something == (membership_pending(old(self)@.membership).len() > 0),
            membership_pending(final(self)@.membership).len() == 0,
            membership_id(final(self)@.membership) == membership_id(old(self)@.membership),
    {
        let ghost start = self.runtime(service);
        let ghost pending = membership_pending(self@.membership);
        let ghost goal = membership::membership_polled(start.node.membership, pending.len());
        let ghost mut count: nat = 0;
        let mut did_something = false;
        loop
            invariant
                count <= pending.len(),
                did_something == (count > 0),
                pending == membership_pending(start.node.membership),
                goal == membership::membership_polled(start.node.membership, pending.len()),
                self@.membership == membership::membership_polled(start.node.membership, count),
                membership_pending(self@.membership) == pending.skip(count as int),
                membership_id(self@.membership) == membership_id(start.node.membership),
                start.membership_drained() == self.runtime(service).with_membership(
                    goal,
                ).after_membership_actions(pending.skip(count as int)),
            ensures
                count == pending.len(),
            decreases pending.len() - count,
        {
            let ghost before = self.runtime(service);
            match membership::poll_action(&mut self.hyparview_node) {
                None => {
                    break ;
                },
                Some(action) => {
                    self.handle_hyparview_action(service, action);
                    proof {
                        let rest = pending.skip(count as int);
                        assert(rest.drop_first() =~= pending.skip(count + 1 as int));
                        assert(before.with_membership(goal).after_membership_action(action)
                            =~= self.runtime(service).with_membership(goal));
                        count = count + 1;
                    }
                    did_something = true;
                },
            }
        }
        proof {
            assert(self.runtime(service).with_membership(goal) =~= self.runtime(service));
        }
        did_something
    }

    /// Draws the actions of the broadcast engine and handles each, until the
    /// engine has none left. Says whether there was one.
    fn drain_broadcast(&mut self, service: &mut Service) -> (did_something: bool)
        ensures
            final(self).runtime(final(service)) == old(self).runtime(
                old(service),
            ).broadcast_drained(),
            did_something == (broadcast_pending(old(self)@.broadcast).len() > 0),
            broadcast_pending(final(self)@.broadcast).len() == 0,
            final(self)@.membership == old(self)@.membership,
    {
        let ghost start = self.runtime(service);
        let ghost pending = broadcast_pending(self@.broadcast);
        let ghost goal = broadcast::broadcast_polled(start.node.broadcast, pending.len());
        let ghost mut count: nat = 0;
        let mut did_something = false;
        loop
            invariant
                count <= pending.len(),
                did_something == (count > 0),
                pending == broadcast_pending(start.node.broadcast),
                goal == broadcast::broadcast_polled(start.node.broadcast, pending.len()),
                self@.broadcast == broadcast::broadcast_polled(start.node.broadcast, count),
                broadcast_pending(self@.broadcast) == pending.skip(count as int),
                self@.membership == start.node.membership,
                start.broadcast_drained() == self.runtime(service).with_broadcast(
                    goal,
                ).after_broadcast_actions(pending.skip(count as int)),
            ensures
                count == pending.len(),
            decreases pending.len() - count,
        {
            let ghost before = self.runtime(service);
            match broadcast::poll_action(&mut self.plumtree_node) {
                None => {
                    break ;
                },
                Some(action) => {
                    self.handle_plumtree_action(service, action);
                    proof {
                        let rest = pending.skip(count as int);
                        assert(rest.drop_first() =~= pending.skip(count + 1 as int));
                        assert(before.with_broadcast(goal).after_broadcast_action(action)
                            =~= self.runtime(service).with_broadcast(goal));
                        count = count + 1;
                    }
                    did_something = true;
                },
            }
        }
        proof {
            assert(self.runtime(service).with_broadcast(goal) =~= self.runtime(service));
        }
        did_something
    }

    /// Takes the messages of the inbox and hands each to its engine, until
    /// the inbox is empty. Says whether there was one. Fails if the service
    /// does not know the node.
    fn drain_inbox(&mut self, service: &mut Service) -> (r: Result<bool, Error>)
        ensures
            !old(self).runtime(old(service)).registered() ==> r == Err::<bool, Error>(
                Error { kind: ErrorKind::ServiceDown },
            ) && final(self).runtime(final(service)) == old(self).runtime(old(service)),
            old(self).runtime(old(service)).registered() ==> r == Ok::<bool, Error>(
                old(self).runtime(old(service)).inbox().len() > 0,
            ) && final(self).runtime(final(service)) == old(self).runtime(
                old(service),
            ).inbox_drained(),
            old(self).runtime(old(service)).registered() ==> final(self).runtime(
                final(service),
            ).registered(),
            old(self).runtime(old(service)).registered() ==> final(self).runtime(
                final(service),
            ).inbox().len() == 0,
            membership_id(final(self)@.membership) == membership_id(old(self)@.membership),
    {
        let ghost start = self.runtime(service);
        let ghost inbox = start.inbox();
        let ghost mut count: nat = 0;
        let mut did_something = false;
        let local_id = self.id.local_id;
        proof {
            assert(inbox.skip(0) =~= inbox);
            if start.registered() {
                assert(start.service.inboxes.insert(local_id.spec_value(), inbox)
                    =~= start.service.inboxes);
                assert(service@ =~= start.service.with_inbox(local_id, inbox.skip(0)));
            }
        }
        loop
            invariant
                count <= inbox.len(),
                did_something == (count > 0),
                start == old(self).runtime(old(service)),
                local_id == start.local_id(),
                inbox == start.inbox(),
                self@.id == start.node.id,
                membership_id(self@.membership) == membership_id(start.node.membership),
                start.registered() ==> service@ == start.service.with_inbox(
                    local_id,
                    inbox.skip(count as int),
                ),
                !start.registered() ==> self.runtime(service) == start,
                start.inbox_drained() == (Runtime {
                    service: start.service.with_inbox(local_id, Seq::<RpcMessage>::empty()),
                    node: self@,
                }).after_rpc_messages(inbox.skip(count as int)),
            ensures
                start.registered(),
                count == inbox.len(),
            decreases inbox.len() - count,
        {
            let ghost before = self@;
            match service.receive(local_id) {
                Received::Closed => {
                    return Err(Error::new(ErrorKind::ServiceDown));
                },
                Received::Empty => {
                    break ;
                },
                Received::Message(message) => {
                    self.handle_rpc_message(message);
                    proof {
                        let rest = inbox.skip(count as int);
                        assert(rest.drop_first() =~= inbox.skip(count + 1 as int));
                        assert(service@ =~= start.service.with_inbox(
                            local_id,
                            inbox.skip(count + 1 as int),
                        ));
                        count = count + 1;
                    }
                    did_something = true;
                },
            }
        }
        proof {
            assert(inbox.skip(count as int) =~= Seq::<RpcMessage>::empty());
            assert(service@ =~= start.service.with_inbox(local_id, Seq::<RpcMessage>::empty()));
        }
        Ok(did_something)
    }

    /// Returns the next message for the application, or says that none is
    /// ready. A message that waits in the deliverable queue is handed out at
    /// once. Otherwise the node is driven: the actions of the membership
    /// engine are handled, then those of the broadcast engine, then the
    /// messages of the inbox, and all over again while a pass found work and
    /// no message has become deliverable. A node that has run out of sequence
    /// numbers fails with `SequenceWrap`, and a node that its service does not
    /// know fails with `ServiceDown` when its inbox is looked at.
    pub fn poll(&mut self, service: &mut Service) -> (r: Result<Delivery, Error>)
        ensures
            (Polled { runtime: final(self).runtime(final(service)), result: r }) == old(
                self,
            ).runtime(old(service)).polled(),
            r == Ok::<Delivery, Error>(Delivery::NotReady) ==> final(self).runtime(
                final(service),
            ).idle(),
            membership_id(final(self)@.membership) == membership_id(old(self)@.membership),
    {
        if self.halted {
            return Err(Error::new(ErrorKind::SequenceWrap));
        }
        let ghost start = self.runtime(service);
        let ghost mut passes: nat = 3;
        let ghost mut rounds: nat = 4;
        let mut did_something = true;
        while did_something
            invariant
                start == old(self).runtime(old(service)),
                !start.node.halted,
                membership_id(self@.membership) == membership_id(start.node.membership),
                did_something ==> 1 <= passes <= 3 && passes <= rounds,
                did_something ==> start.driven(3) == self.runtime(service).driven(passes),
                did_something && passes <= 2 ==> self.runtime(service).registered()
                    && self.runtime(service).inbox().len() == 0,
                did_something && passes == 1 ==> membership_pending(self@.membership).len() == 0
                    && broadcast_pending(self@.broadcast).len() == 0,
                !did_something ==> start.driven(3) == (Polled {
                    runtime: self.runtime(service),
                    result: Ok(Delivery::NotReady),
                }),
                !did_something ==> self.runtime(service).idle(),
            decreases rounds,
        {
            did_something = false;
            let ghost current = self.runtime(service);
            if let Some(message) = self.deliverable_messages.pop_front() {
                proof {
                    assert(self.deliverable_messages@ =~= current.node.deliverable.drop_first());
                    assert(self.runtime(service) =~= current.delivered().runtime);
                }
                return Ok(Delivery::Ready(message));
            }
            let did_membership = self.drain_membership(service);
            let did_broadcast = self.drain_broadcast(service);
            proof {
                current.lemma_engines_drained_frame();
            }
            match self.drain_inbox(service) {
                Err(e) => {
                    return Err(e);
                },
                Ok(did_inbox) => {
                    did_something = did_membership || did_broadcast || did_inbox;
                },
            }
            proof {
                assert(did_something == current.has_work());
                if did_something {
                    passes = (passes - 1) as nat;
                } else {
                    current.lemma_pass_without_work();
                }
                rounds = (rounds - 1) as nat;
            }
        }
        Ok(Delivery::NotReady)
    }
}

} // verus!
