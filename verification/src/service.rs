//! The service of a process: the registry of its nodes and the queue of the
//! casts that leave it.
//!
//! Every cast that arrives names a local identifier. The registry maps the
//! identifiers of the nodes that live in this process to their inboxes, so a
//! handler can put the message where its node will find it, or tell the
//! sender that the node is gone. Casts that leave the process are queued here
//! until the transport takes them.
use crate::message::HyparviewMessage;
use crate::node::{LocalNodeId, NodeAddr, NodeHandle, NodeId};
use crate::rpc::{cast, cast_to, Cast, RpcMessage};
use std::collections::HashMap;
use vstd::prelude::*;

verus! {

broadcast use vstd::std_specs::hash::group_hash_axioms;

/// What `Service::receive` found in the inbox of a node.
#[derive(Debug, Clone, PartialEq, Eq)]
pub enum Received {
    /// The oldest message of the inbox.
    Message(RpcMessage),
    /// The inbox holds nothing at the moment.
    Empty,
    /// The node is not registered: nothing will arrive any more.
    Closed,
}

/// The service of a process.
#[derive(Debug)]
pub struct Service {
    addr: NodeAddr,
    next_local_id: u64,
    nodes: HashMap<u64, NodeHandle>,
    outgoing: Vec<Cast>,
}

/// What a service holds, as mathematical values.
#[verifier::ext_equal]
pub ghost struct ServiceView {
    /// The address at which the process listens.
    pub addr: NodeAddr,
    /// The local identifier that the next new node gets.
    pub next_local_id: u64,
    /// The registry: the inbox of each registered node, oldest message first,
    /// under the number of the node's local identifier.
    pub inboxes: Map<u64, Seq<RpcMessage>>,
    /// The casts that wait for the transport, oldest first.
    pub outgoing: Seq<Cast>,
}

impl ServiceView {
    /// Whether a node with the local identifier `local_id` is registered.
    pub open spec fn registered(self, local_id: LocalNodeId) -> bool {
        self.inboxes.contains_key(local_id.spec_value())
    }

    /// The inbox of the node `local_id`.
    pub open spec fn inbox(self, local_id: LocalNodeId) -> Seq<RpcMessage> {
        self.inboxes[local_id.spec_value()]
    }

    /// The service with `inbox` as the inbox of the node `local_id`.
    pub open spec fn with_inbox(self, local_id: LocalNodeId, inbox: Seq<RpcMessage>) -> ServiceView {
        ServiceView { inboxes: self.inboxes.insert(local_id.spec_value(), inbox), ..self }
    }

    /// The service without the node `local_id`.
    pub open spec fn without(self, local_id: LocalNodeId) -> ServiceView {
        ServiceView { inboxes: self.inboxes.remove(local_id.spec_value()), ..self }
    }

    /// The service with `message` queued for the transport, addressed to
    /// `destination`.
    pub open spec fn sent(self, destination: NodeId, message: RpcMessage) -> ServiceView {
        ServiceView { outgoing: self.outgoing.push(cast_to(destination, message)), ..self }
    }

    /// The notice that tells `sender` that this process has no node
    /// `local_id`: a membership `Disconnect` in the name of that node.
    pub open spec fn gone_notice(self, local_id: LocalNodeId) -> RpcMessage {
        RpcMessage::Hyparview(
            HyparviewMessage::Disconnect { sender: NodeId { addr: self.addr, local_id } },
        )
    }

    /// The service after a cast for the node `local_id` arrived from the
    /// address `peer`. The message reaches the inbox if the node is registered
    /// and the message names a sender at that address. Otherwise the message
    /// is dropped and the sender that it names is told that the node is gone.
    pub open spec fn routed(self, peer: NodeAddr, local_id: LocalNodeId, message: RpcMessage) -> ServiceView {
        if self.registered(local_id) && message.spec_sender().addr == peer {
            self.with_inbox(local_id, self.inbox(local_id).push(message))
        } else {
            self.sent(message.spec_sender(), self.gone_notice(local_id))
        }
    }
}

impl ServiceView {
    /// Nodes that share an address and differ in their local identifier live
    /// side by side: a cast for one of them reaches its inbox, behind what was
    /// there, and leaves the inbox of the other and the queued casts as they
    /// were.
    pub proof fn lemma_routes_by_local_id(
        self,
        peer: NodeAddr,
        target: LocalNodeId,
        other: LocalNodeId,
        message: RpcMessage,
    )
        requires
            self.registered(target),
            self.registered(other),
            target != other,
            message.spec_sender().addr == peer,
        ensures
            self.routed(peer, target, message).inbox(target) == self.inbox(target).push(message),
            self.routed(peer, target, message).inbox(other) == self.inbox(other),
            self.routed(peer, target, message).registered(other),
            self.routed(peer, target, message).outgoing == self.outgoing,
    {
        LocalNodeId::lemma_wraps(target, 0);
        LocalNodeId::lemma_wraps(other, 0);
    }

    /// A cast whose message names a sender at another address than the one
    /// it came from is dropped: no inbox changes, and the only thing queued is
    /// the notice for the sender that the message names.
    pub proof fn lemma_misrouted_cast_is_dropped(
        self,
        peer: NodeAddr,
        local_id: LocalNodeId,
        message: RpcMessage,
    )
        requires
            message.spec_sender().addr != peer,
        ensures
            self.routed(peer, local_id, message).inboxes == self.inboxes,
            self.routed(peer, local_id, message).outgoing == self.outgoing.push(
                cast_to(message.spec_sender(), self.gone_notice(local_id)),
            ),
    {
    }

    /// A cast for a node that is not registered is dropped: no inbox changes,
    /// and the sender that the message names is sent a `Disconnect` in the
    /// name of the missing node.
    pub proof fn lemma_cast_for_missing_node_is_dropped(
        self,
        peer: NodeAddr,
        local_id: LocalNodeId,
        message: RpcMessage,
    )
        requires
            !self.registered(local_id),
        ensures
            self.routed(peer, local_id, message).inboxes == self.inboxes,
            self.routed(peer, local_id, message).outgoing == self.outgoing.push(
                cast_to(message.spec_sender(), self.gone_notice(local_id)),
            ),
    {
    }
}

impl View for Service {
    type V = ServiceView;

    closed spec fn view(&self) -> ServiceView {
        ServiceView {
            addr: self.addr,
            next_local_id: self.next_local_id,
            inboxes: self.nodes@.map_values(|h: NodeHandle| h@),
            outgoing: self.outgoing@,
        }
    }
}

impl Service {
    /// Makes the service of a process that listens at `addr`: no node is
    /// registered, no cast is queued, and local identifiers start at zero.
    pub fn new(addr: NodeAddr) -> (service: Service)
        ensures
            service@ == (ServiceView {
                addr,
                next_local_id: 0,
                inboxes: Map::<u64, Seq<RpcMessage>>::empty(),
                outgoing: Seq::<Cast>::empty(),
            }),
    {
        Service::starting_at(addr, 0)
    }

    /// Makes the service of a process that listens at `addr` and numbers its
    /// nodes from `first_local_id` on.
    pub fn starting_at(addr: NodeAddr, first_local_id: u64) -> (service: Service)
        ensures
            service@ == (ServiceView {
                addr,
                next_local_id: first_local_id,
                inboxes: Map::<u64, Seq<RpcMessage>>::empty(),
                outgoing: Seq::<Cast>::empty(),
            }),
    {
        let service = Service {
            addr,
            next_local_id: first_local_id,
            nodes: HashMap::new(),
            outgoing: Vec::new(),
        };
        assert(service.nodes@.map_values(|h: NodeHandle| h@) =~= Map::<u64, Seq<RpcMessage>>::empty());
        service
    }

    /// Returns the address at which the process listens.
    pub fn addr(&self) -> (r: NodeAddr)
        ensures
            r == self@.addr,
    {
        self.addr
    }

    /// Makes the identifier of a new node of this process: the address of the
    /// service with a local identifier that no earlier call has returned.
    /// Returns `None`, and changes nothing, once every local identifier has
    /// been handed out.
    pub fn generate_node_id(&mut self) -> (id: Option<NodeId>)
        ensures
            id.is_some() <==> old(self)@.next_local_id < u64::MAX,
            id.is_none() ==> final(self)@ == old(self)@,
            id.is_some() ==> id.unwrap() == (NodeId {
                addr: old(self)@.addr,
                local_id: LocalNodeId::spec_new(old(self)@.next_local_id),
            }) && final(self)@ == (ServiceView {
                next_local_id: (old(self)@.next_local_id + 1) as u64,
                ..old(self)@
            }),
    {
        if self.next_local_id == u64::MAX {
            return None;
        }
        let local_id = LocalNodeId::new(self.next_local_id);
        self.next_local_id = self.next_local_id + 1;
        Some(NodeId { addr: self.addr, local_id })
    }

    /// Whether a node with the local identifier `local_id` is registered.
    pub fn is_registered(&self, local_id: &LocalNodeId) -> (r: bool)
        ensures
            r == self@.registered(*local_id),
    {
        let key = local_id.value();
        self.nodes.contains_key(&key)
    }

    /// Registers a node under the local identifier of `handle`. Messages that
    /// the handle already holds become the inbox of the node. A node that was
    /// registered under that identifier before is replaced.
    pub fn register_local_node(&mut self, handle: NodeHandle)
        ensures
            final(self)@ == old(self)@.with_inbox(handle.spec_local_id(), handle@),
    {
        let key = handle.local_id().value();
        self.nodes.insert(key, handle);
        assert(self.nodes@.map_values(|h: NodeHandle| h@) =~= old(self).nodes@.map_values(
            |h: NodeHandle| h@,
        ).insert(key, handle@));
    }

    /// Removes the node `local_id` from the registry, with the messages that
    /// it has not taken from its inbox. Other nodes and the queued casts stay.
    pub fn deregister_local_node(&mut self, local_id: LocalNodeId)
        ensures
            final(self)@ == old(self)@.without(local_id),
    {
        let key = local_id.value();
        self.nodes.remove(&key);
        assert(self.nodes@.map_values(|h: NodeHandle| h@) =~= old(self).nodes@.map_values(
            |h: NodeHandle| h@,
        ).remove(key));
    }

    /// Queues the cast that takes `message` to the node `destination`.
    pub fn send_message(&mut self, destination: NodeId, message: RpcMessage)
        ensures
            final(self)@ == old(self)@.sent(destination, message),
    {
        let c = cast(destination, message);
        self.outgoing.push(c);
    }

    /// Looks the node `local_id` up. If it is registered nothing changes.
    /// If it is not, `sender` is told so: a membership `Disconnect` in the name
    /// of the missing node is queued for it.
    pub fn get_local_node_or_disconnect(&mut self, local_id: &LocalNodeId, sender: &NodeId) -> (found: bool)
        ensures
            found == old(self)@.registered(*local_id),
            found ==> final(self)@ == old(self)@,
            !found ==> final(self)@ == old(self)@.sent(*sender, old(self)@.gone_notice(*local_id)),
    {
        if self.is_registered(local_id) {
            true
        } else {
            let missing = NodeId { addr: self.addr, local_id: *local_id };
            let message = RpcMessage::Hyparview(HyparviewMessage::Disconnect { sender: missing });
            self.send_message(*sender, message);
            false
        }
    }

    /// Handles a cast for the node `local_id` that arrived from the address
    /// `peer`. The message is put at the back of the node's inbox if the node
    /// is registered and the message names a sender at that address. Otherwise
    /// the message is dropped, and a membership `Disconnect` in the name of
    /// `local_id` is queued for the sender that the message names.
    pub fn handle_cast(&mut self, peer: &NodeAddr, local_id: LocalNodeId, message: RpcMessage)
        ensures
            final(self)@ == old(self)@.routed(*peer, local_id, message),
    {
        let sender = message.sender();
        if sender.addr == *peer {
            if self.get_local_node_or_disconnect(&local_id, &sender) {
                let key = local_id.value();
                let found = self.nodes.remove(&key);
                let mut handle = found.unwrap();
                handle.send_rpc_message(message);
                self.nodes.insert(key, handle);
                assert(self.nodes@.map_values(|h: NodeHandle| h@) =~= old(self).nodes@.map_values(
                    |h: NodeHandle| h@,
                ).insert(key, handle@));
            }
        } else {
            let missing = NodeId { addr: self.addr, local_id };
            let notice = RpcMessage::Hyparview(HyparviewMessage::Disconnect { sender: missing });
            self.send_message(sender, notice);
        }
    }

    /// Takes the oldest message out of the inbox of the node `local_id`.
    pub fn receive(&mut self, local_id: LocalNodeId) -> (r: Received)
        ensures
            !old(self)@.registered(local_id) ==> r == Received::Closed && final(self)@ == old(self)@,
            old(self)@.registered(local_id) && old(self)@.inbox(local_id).len() == 0
                ==> r == Received::Empty && final(self)@ == old(self)@,
            old(self)@.registered(local_id) && old(self)@.inbox(local_id).len() > 0
                ==> r == Received::Message(old(self)@.inbox(local_id).first())
                && final(self)@ == old(self)@.with_inbox(
                    local_id,
                    old(self)@.inbox(local_id).drop_first(),
                ),
    {
        let key = local_id.value();
        match self.nodes.remove(&key) {
            None => {
                assert(self.nodes@.map_values(|h: NodeHandle| h@) =~= old(self).nodes@.map_values(
                    |h: NodeHandle| h@,
                ));
                Received::Closed
            },
            Some(handle) => {
                let mut handle = handle;
                let taken = handle.take_message();
                self.nodes.insert(key, handle);
                match taken {
                    None => {
                        assert(self.nodes@.map_values(|h: NodeHandle| h@) =~= old(
                            self,
                        ).nodes@.map_values(|h: NodeHandle| h@));
                        Received::Empty
                    },
                    Some(message) => {
                        assert(self.nodes@.map_values(|h: NodeHandle| h@) =~= old(
                            self,
                        ).nodes@.map_values(|h: NodeHandle| h@).insert(key, handle@));
                        Received::Message(message)
                    },
                }
            },
        }
    }

    /// Hands the queued casts to the transport, oldest first, and leaves the
    /// queue empty.
    pub fn take_outgoing(&mut self) -> (casts: Vec<Cast>)
        ensures
            casts@ == old(self)@.outgoing,
            final(self)@ == (ServiceView { outgoing: Seq::<Cast>::empty(), ..old(self)@ }),
    {
        let mut casts: Vec<Cast> = Vec::new();
        std::mem::swap(&mut casts, &mut self.outgoing);
        casts
    }
}

} // verus!
