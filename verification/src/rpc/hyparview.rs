//! The casts of the membership protocol.
use crate::message::HyparviewMessage;
use crate::node::{LocalNodeId, NodeAddr, NodeId};
use crate::rpc::{Cast, CastOptions, RpcMessage};
use crate::service::Service;
use vstd::prelude::*;

verus! {

/// The procedure that carries a `Join` message.
pub const JOIN_ID: u32 = 0x17CC_0000;

/// The procedure that carries a `ForwardJoin` message.
pub const FORWARD_JOIN_ID: u32 = 0x17CC_0001;

/// The procedure that carries a `Neighbor` message.
pub const NEIGHBOR_ID: u32 = 0x17CC_0002;

/// The procedure that carries a `Shuffle` message.
pub const SHUFFLE_ID: u32 = 0x17CC_0003;

/// The procedure that carries a `ShuffleReply` message.
pub const SHUFFLE_REPLY_ID: u32 = 0x17CC_0004;

/// The procedure that carries a `Disconnect` message.
pub const DISCONNECT_ID: u32 = 0x17CC_0005;

/// The procedure that carries `message`.
pub open spec fn procedure_of(message: HyparviewMessage) -> u32 {
    match message {
        HyparviewMessage::Join { .. } => JOIN_ID,
        HyparviewMessage::ForwardJoin { .. } => FORWARD_JOIN_ID,
        HyparviewMessage::Neighbor { .. } => NEIGHBOR_ID,
        HyparviewMessage::Shuffle { .. } => SHUFFLE_ID,
        HyparviewMessage::ShuffleReply { .. } => SHUFFLE_REPLY_ID,
        HyparviewMessage::Disconnect { .. } => DISCONNECT_ID,
    }
}

/// Whether `a` and `b` are messages of one kind.
pub open spec fn same_family(a: HyparviewMessage, b: HyparviewMessage) -> bool {
    match a {
        HyparviewMessage::Join { .. } => b is Join,
        HyparviewMessage::ForwardJoin { .. } => b is ForwardJoin,
        HyparviewMessage::Neighbor { .. } => b is Neighbor,
        HyparviewMessage::Shuffle { .. } => b is Shuffle,
        HyparviewMessage::ShuffleReply { .. } => b is ShuffleReply,
        HyparviewMessage::Disconnect { .. } => b is Disconnect,
    }
}

/// Returns the procedure that carries `message`.
pub fn procedure(message: &HyparviewMessage) -> (r: u32)
    ensures
        r == procedure_of(*message),
{
    match message {
        HyparviewMessage::Join { .. } => JOIN_ID,
        HyparviewMessage::ForwardJoin { .. } => FORWARD_JOIN_ID,
        HyparviewMessage::Neighbor { .. } => NEIGHBOR_ID,
        HyparviewMessage::Shuffle { .. } => SHUFFLE_ID,
        HyparviewMessage::ShuffleReply { .. } => SHUFFLE_REPLY_ID,
        HyparviewMessage::Disconnect { .. } => DISCONNECT_ID,
    }
}

/// Describes the cast that takes the membership message `m` to `peer`. Every
/// kind of membership message has a procedure of its own and is sent with
/// the options of an unconfigured client.
pub fn cast(peer: NodeId, m: HyparviewMessage) -> (r: Cast)
    ensures
        r == (Cast {
            procedure: procedure_of(m),
            options: CastOptions::spec_default(),
            server: peer.addr,
            local_id: peer.local_id,
            message: RpcMessage::Hyparview(m),
        }),
{
    Cast {
        procedure: procedure(&m),
        options: CastOptions::default(),
        server: peer.addr,
        local_id: peer.local_id,
        message: RpcMessage::Hyparview(m),
    }
}

/// Handles a membership cast for the node `id` that arrived from `peer`:
/// the service routes the message as a message of the membership protocol.
pub fn handle_cast(service: &mut Service, peer: &NodeAddr, id: LocalNodeId, m: HyparviewMessage)
    ensures
        final(service)@ == old(service)@.routed(*peer, id, RpcMessage::Hyparview(m)),
{
    let m = RpcMessage::Hyparview(m);
    service.handle_cast(peer, id, m);
}

} // verus!
