//! The casts of the broadcast protocol.
use crate::message::{GossipMessage, GraftMessage, IhaveMessage, PlumtreeMessage, PruneMessage};
use crate::node::{LocalNodeId, NodeAddr, NodeId};
use crate::rpc::{Cast, CastOptions, RpcMessage, DEFAULT_PRIORITY, MAX_QUEUE_LEN};
use crate::service::Service;
use vstd::prelude::*;

verus! {

/// The priority of an `IHAVE` cast.
pub const IHAVE_PRIORITY: u8 = 200;

/// The cast that carries a `GOSSIP` message.
#[derive(Debug)]
pub struct GossipCast;

impl GossipCast {
    /// The identifier of the procedure.
    pub const ID: u32 = 0x17CD_0000;

    /// The name of the procedure.
    pub const NAME: &'static str = "plumtree.gossip";
}

/// The cast that carries an `IHAVE` message.
#[derive(Debug)]
pub struct IhaveCast;

impl IhaveCast {
    /// The identifier of the procedure.
    pub const ID: u32 = 0x17CD_0001;

    /// The name of the procedure.
    pub const NAME: &'static str = "plumtree.ihave";
}

/// The cast that carries a `GRAFT` message.
#[derive(Debug)]
pub struct GraftCast;

impl GraftCast {
    /// The identifier of the procedure.
    pub const ID: u32 = 0x17CD_0002;

    /// The name of the procedure.
    pub const NAME: &'static str = "plumtree.graft";
}

/// The cast that carries a `PRUNE` message.
#[derive(Debug)]
pub struct PruneCast;

impl PruneCast {
    /// The identifier of the procedure.
    pub const ID: u32 = 0x17CD_0003;

    /// The name of the procedure.
    pub const NAME: &'static str = "plumtree.prune";
}

/// The procedure that carries `message`.
pub open spec fn procedure_of(message: PlumtreeMessage) -> u32 {
    match message {
        PlumtreeMessage::Gossip(_) => GossipCast::ID,
        PlumtreeMessage::Ihave(_) => IhaveCast::ID,
        PlumtreeMessage::Graft(_) => GraftCast::ID,
        PlumtreeMessage::Prune(_) => PruneCast::ID,
    }
}

/// The options of the client that sends `message`: payloads and
/// announcements are sent through a bounded queue, and announcements with a
/// priority of their own.
pub open spec fn options_of(message: PlumtreeMessage) -> CastOptions {
    match message {
        PlumtreeMessage::Gossip(_) => CastOptions {
            priority: DEFAULT_PRIORITY,
            max_queue_len: Some(MAX_QUEUE_LEN),
        },
        PlumtreeMessage::Ihave(_) => CastOptions {
            priority: IHAVE_PRIORITY,
            max_queue_len: Some(MAX_QUEUE_LEN),
        },
        PlumtreeMessage::Graft(_) => CastOptions::spec_default(),
        PlumtreeMessage::Prune(_) => CastOptions::spec_default(),
    }
}

/// Whether `a` and `b` are messages of one kind.
pub open spec fn same_family(a: PlumtreeMessage, b: PlumtreeMessage) -> bool {
    match a {
        PlumtreeMessage::Gossip(_) => b is Gossip,
        PlumtreeMessage::Ihave(_) => b is Ihave,
        PlumtreeMessage::Graft(_) => b is Graft,
        PlumtreeMessage::Prune(_) => b is Prune,
    }
}

/// Describes the cast that takes the `GOSSIP` message `m` to `peer`.
pub fn gossip_cast(peer: NodeId, m: GossipMessage) -> (r: Cast)
    ensures
        r == (Cast {
            procedure: GossipCast::ID,
            options: (CastOptions { priority: DEFAULT_PRIORITY, max_queue_len: Some(MAX_QUEUE_LEN) }),
            server: peer.addr,
            local_id: peer.local_id,
            message: RpcMessage::Plumtree(PlumtreeMessage::Gossip(m)),
        }),
{
    let mut options = CastOptions::default();
    options.max_queue_len = Some(MAX_QUEUE_LEN);
    Cast {
        procedure: GossipCast::ID,
        options,
        server: peer.addr,
        local_id: peer.local_id,
        message: RpcMessage::Plumtree(PlumtreeMessage::Gossip(m)),
    }
}

/// Describes the cast that takes the `IHAVE` message `m` to `peer`.
pub fn ihave_cast(peer: NodeId, m: IhaveMessage) -> (r: Cast)
    ensures
        r == (Cast {
            procedure: IhaveCast::ID,
            options: (CastOptions { priority: IHAVE_PRIORITY, max_queue_len: Some(MAX_QUEUE_LEN) }),
            server: peer.addr,
            local_id: peer.local_id,
            message: RpcMessage::Plumtree(PlumtreeMessage::Ihave(m)),
        }),
{
    let mut options = CastOptions::default();
    options.priority = IHAVE_PRIORITY;
    options.max_queue_len = Some(MAX_QUEUE_LEN);
    Cast {
        procedure: IhaveCast::ID,
        options,
        server: peer.addr,
        local_id: peer.local_id,
        message: RpcMessage::Plumtree(PlumtreeMessage::Ihave(m)),
    }
}

/// Describes the cast that takes the `GRAFT` message `m` to `peer`.
pub fn graft_cast(peer: NodeId, m: GraftMessage) -> (r: Cast)
    ensures
        r == (Cast {
            procedure: GraftCast::ID,
            options: CastOptions::spec_default(),
            server: peer.addr,
            local_id: peer.local_id,
            message: RpcMessage::Plumtree(PlumtreeMessage::Graft(m)),
        }),
{
    Cast {
        procedure: GraftCast::ID,
        options: CastOptions::default(),
        server: peer.addr,
        local_id: peer.local_id,
        message: RpcMessage::Plumtree(PlumtreeMessage::Graft(m)),
    }
}

/// Describes the cast that takes the `PRUNE` message `m` to `peer`.
pub fn prune_cast(peer: NodeId, m: PruneMessage) -> (r: Cast)
    ensures
        r == (Cast {
            procedure: PruneCast::ID,
            options: CastOptions::spec_default(),
            server: peer.addr,
            local_id: peer.local_id,
            message: RpcMessage::Plumtree(PlumtreeMessage::Prune(m)),
        }),
{
    Cast {
        procedure: PruneCast::ID,
        options: CastOptions::default(),
        server: peer.addr,
        local_id: peer.local_id,
        message: RpcMessage::Plumtree(PlumtreeMessage::Prune(m)),
    }
}

/// Handles a `GOSSIP` cast for the node `id` that arrived from `peer`: the
/// service routes the message as a message of the broadcast protocol.
pub fn handle_gossip(service: &mut Service, peer: &NodeAddr, id: LocalNodeId, m: GossipMessage)
    ensures
        final(service)@ == old(service)@.routed(
            *peer,
            id,
            RpcMessage::Plumtree(PlumtreeMessage::Gossip(m)),
        ),
{
    let m = RpcMessage::Plumtree(PlumtreeMessage::Gossip(m));
    service.handle_cast(peer, id, m);
}

/// Handles an `IHAVE` cast for the node `id` that arrived from `peer`: the
/// service routes the message as a message of the broadcast protocol.
pub fn handle_ihave(service: &mut Service, peer: &NodeAddr, id: LocalNodeId, m: IhaveMessage)
    ensures
        final(service)@ == old(service)@.routed(
            *peer,
            id,
            RpcMessage::Plumtree(PlumtreeMessage::Ihave(m)),
        ),
{
    let m = RpcMessage::Plumtree(PlumtreeMessage::Ihave(m));
    service.handle_cast(peer, id, m);
}

/// Handles a `GRAFT` cast for the node `id` that arrived from `peer`: the
/// service routes the message as a message of the broadcast protocol.
pub fn handle_graft(service: &mut Service, peer: &NodeAddr, id: LocalNodeId, m: GraftMessage)
    ensures
        final(service)@ == old(service)@.routed(
            *peer,
            id,
            RpcMessage::Plumtree(PlumtreeMessage::Graft(m)),
        ),
{
    let m = RpcMessage::Plumtree(PlumtreeMessage::Graft(m));
    service.handle_cast(peer, id, m);
}

/// Handles a `PRUNE` cast for the node `id` that arrived from `peer`: the
/// service routes the message as a message of the broadcast protocol.
pub fn handle_prune(service: &mut Service, peer: &NodeAddr, id: LocalNodeId, m: PruneMessage)
    ensures
        final(service)@ == old(service)@.routed(
            *peer,
            id,
            RpcMessage::Plumtree(PlumtreeMessage::Prune(m)),
        ),
{
    let m = RpcMessage::Plumtree(PlumtreeMessage::Prune(m));
    service.handle_cast(peer, id, m);
}

} // verus!
