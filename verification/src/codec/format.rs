//! The format: how each part of a cast's payload is written and how it is
//! read, as functions on byte sequences.
use crate::message::{
    GossipMessageView, GraftMessage, HyparviewMessageView, IhaveMessage, MessageView,
    PlumtreeMessageView, PruneMessage,
};
use crate::node::{LocalNodeId, MessageId, NodeAddr, NodeId};
use crate::rpc::hyparview::{
    DISCONNECT_ID, FORWARD_JOIN_ID, JOIN_ID, NEIGHBOR_ID, SHUFFLE_ID, SHUFFLE_REPLY_ID,
};
use crate::rpc::plumtree::{GossipCast, GraftCast, IhaveCast, PruneCast};
use crate::rpc::RpcMessageView;
use vstd::bytes::{
    spec_u128_from_le_bytes, spec_u128_to_le_bytes, spec_u16_from_le_bytes,
    spec_u16_to_le_bytes, spec_u32_from_le_bytes, spec_u32_to_le_bytes, spec_u64_from_le_bytes,
    spec_u64_to_le_bytes,
};
use vstd::prelude::*;

verus! {

/// A byte on the wire.
pub open spec fn wire_u8(x: u8) -> Seq<u8> {
    seq![x]
}

/// Reads a byte.
pub open spec fn parse_u8(s: Seq<u8>) -> Option<(u8, Seq<u8>)> {
    if s.len() >= 1 {
        Some((s[0], s.skip(1)))
    } else {
        None
    }
}

/// A flag on the wire: one byte, zero or one.
pub open spec fn wire_bool(x: bool) -> Seq<u8> {
    seq![if x { 1u8 } else { 0u8 }]
}

/// Reads a flag. Any byte but zero and one is refused.
pub open spec fn parse_bool(s: Seq<u8>) -> Option<(bool, Seq<u8>)> {
    if s.len() >= 1 && s[0] <= 1 {
        Some((s[0] == 1, s.skip(1)))
    } else {
        None
    }
}

/// A 16-bit number on the wire.
pub open spec fn wire_u16(x: u16) -> Seq<u8> {
    spec_u16_to_le_bytes(x)
}

/// Reads a 16-bit number.
pub open spec fn parse_u16(s: Seq<u8>) -> Option<(u16, Seq<u8>)> {
    if s.len() >= 2 {
        Some((spec_u16_from_le_bytes(s.take(2)), s.skip(2)))
    } else {
        None
    }
}

/// A 32-bit number on the wire.
pub open spec fn wire_u32(x: u32) -> Seq<u8> {
    spec_u32_to_le_bytes(x)
}

/// Reads a 32-bit number.
pub open spec fn parse_u32(s: Seq<u8>) -> Option<(u32, Seq<u8>)> {
    if s.len() >= 4 {
        Some((spec_u32_from_le_bytes(s.take(4)), s.skip(4)))
    } else {
        None
    }
}

/// A 64-bit number on the wire.
pub open spec fn wire_u64(x: u64) -> Seq<u8> {
    spec_u64_to_le_bytes(x)
}

/// Reads a 64-bit number.
pub open spec fn parse_u64(s: Seq<u8>) -> Option<(u64, Seq<u8>)> {
    if s.len() >= 8 {
        Some((spec_u64_from_le_bytes(s.take(8)), s.skip(8)))
    } else {
        None
    }
}

/// A 128-bit number on the wire.
pub open spec fn wire_u128(x: u128) -> Seq<u8> {
    spec_u128_to_le_bytes(x)
}

/// Reads a 128-bit number.
pub open spec fn parse_u128(s: Seq<u8>) -> Option<(u128, Seq<u8>)> {
    if s.len() >= 16 {
        Some((spec_u128_from_le_bytes(s.take(16)), s.skip(16)))
    } else {
        None
    }
}

/// A local identifier on the wire: the number that it wraps.
pub open spec fn wire_local_id(id: LocalNodeId) -> Seq<u8> {
    wire_u64(id.spec_value())
}

/// Reads a local identifier.
pub open spec fn parse_local_id(s: Seq<u8>) -> Option<(LocalNodeId, Seq<u8>)> {
    match parse_u64(s) {
        Some((value, rest)) => Some((LocalNodeId::spec_new(value), rest)),
        None => None,
    }
}

/// An address on the wire: the byte 4 or 6, then the fields of the address.
pub open spec fn wire_addr(addr: NodeAddr) -> Seq<u8> {
    match addr {
        NodeAddr::V4 { ip, port } => wire_u8(4) + wire_u32(ip) + wire_u16(port),
        NodeAddr::V6 { ip, port, flowinfo, scope_id } => wire_u8(6) + wire_u128(ip) + wire_u16(
            port,
        ) + wire_u32(flowinfo) + wire_u32(scope_id),
    }
}

/// Reads the fields of an IPv4 address.
pub open spec fn parse_addr_v4(s: Seq<u8>) -> Option<(NodeAddr, Seq<u8>)> {
    match parse_u32(s) {
        Some((ip, s1)) => match parse_u16(s1) {
            Some((port, s2)) => Some((NodeAddr::V4 { ip, port }, s2)),
            None => None,
        },
        None => None,
    }
}

/// Reads the fields of an IPv6 address.
pub open spec fn parse_addr_v6(s: Seq<u8>) -> Option<(NodeAddr, Seq<u8>)> {
    match parse_u128(s) {
        Some((ip, s1)) => match parse_u16(s1) {
            Some((port, s2)) => match parse_u32(s2) {
                Some((flowinfo, s3)) => match parse_u32(s3) {
                    Some((scope_id, s4)) => Some(
                        (NodeAddr::V6 { ip, port, flowinfo, scope_id }, s4),
                    ),
                    None => None,
                },
                None => None,
            },
            None => None,
        },
        None => None,
    }
}

/// Reads an address. Any first byte but 4 and 6 is refused.
pub open spec fn parse_addr(s: Seq<u8>) -> Option<(NodeAddr, Seq<u8>)> {
    match parse_u8(s) {
        Some((tag, rest)) => if tag == 4 {
            parse_addr_v4(rest)
        } else if tag == 6 {
            parse_addr_v6(rest)
        } else {
            None
        },
        None => None,
    }
}

/// A node identifier on the wire: the address, then the local identifier.
pub open spec fn wire_node_id(id: NodeId) -> Seq<u8> {
    wire_addr(id.addr) + wire_local_id(id.local_id)
}

/// Reads a node identifier.
pub open spec fn parse_node_id(s: Seq<u8>) -> Option<(NodeId, Seq<u8>)> {
    match parse_addr(s) {
        Some((addr, s1)) => match parse_local_id(s1) {
            Some((local_id, s2)) => Some((NodeId { addr, local_id }, s2)),
            None => None,
        },
        None => None,
    }
}

/// A message identifier on the wire: the node, then the sequence number.
pub open spec fn wire_message_id(id: MessageId) -> Seq<u8> {
    wire_node_id(id.node_id) + wire_u64(id.seqno)
}

/// Reads a message identifier.
pub open spec fn parse_message_id(s: Seq<u8>) -> Option<(MessageId, Seq<u8>)> {
    match parse_node_id(s) {
        Some((node_id, s1)) => match parse_u64(s1) {
            Some((seqno, s2)) => Some((MessageId { node_id, seqno }, s2)),
            None => None,
        },
        None => None,
    }
}

/// A message identifier that may be missing, on the wire: a flag, then the
/// identifier if the flag is set.
pub open spec fn wire_optional_message_id(id: Option<MessageId>) -> Seq<u8> {
    match id {
        Some(id) => wire_bool(true) + wire_message_id(id),
        None => wire_bool(false),
    }
}

/// Reads a message identifier that may be missing.
pub open spec fn parse_optional_message_id(s: Seq<u8>) -> Option<(Option<MessageId>, Seq<u8>)> {
    match parse_bool(s) {
        Some((present, s1)) => if present {
            match parse_message_id(s1) {
                Some((id, s2)) => Some((Some(id), s2)),
                None => None,
            }
        } else {
            Some((None, s1))
        },
        None => None,
    }
}

/// A payload on the wire: its length, then its bytes.
pub open spec fn wire_payload(payload: Seq<u8>) -> Seq<u8> {
    wire_u32(payload.len() as u32) + payload
}

/// Reads a payload.
pub open spec fn parse_payload(s: Seq<u8>) -> Option<(Seq<u8>, Seq<u8>)> {
    match parse_u32(s) {
        Some((len, rest)) => if rest.len() >= len {
            Some((rest.take(len as int), rest.skip(len as int)))
        } else {
            None
        },
        None => None,
    }
}

/// The nodes of a list on the wire, one behind the other.
pub open spec fn wire_node_items(nodes: Seq<NodeId>) -> Seq<u8>
    decreases nodes.len(),
{
    if nodes.len() == 0 {
        Seq::<u8>::empty()
    } else {
        wire_node_id(nodes.first()) + wire_node_items(nodes.drop_first())
    }
}

/// Reads `count` nodes.
pub open spec fn parse_node_items(s: Seq<u8>, count: nat) -> Option<(Seq<NodeId>, Seq<u8>)>
    decreases count,
{
    if count == 0 {
        Some((Seq::<NodeId>::empty(), s))
    } else {
        match parse_node_id(s) {
            Some((node, s1)) => match parse_node_items(s1, (count - 1) as nat) {
                Some((nodes, s2)) => Some((seq![node] + nodes, s2)),
                None => None,
            },
            None => None,
        }
    }
}

/// A list of nodes on the wire: its length, then its nodes.
pub open spec fn wire_nodes(nodes: Seq<NodeId>) -> Seq<u8> {
    wire_u32(nodes.len() as u32) + wire_node_items(nodes)
}

/// Reads a list of nodes.
pub open spec fn parse_nodes(s: Seq<u8>) -> Option<(Seq<NodeId>, Seq<u8>)> {
    match parse_u32(s) {
        Some((count, rest)) => parse_node_items(rest, count as nat),
        None => None,
    }
}

/// An application message on the wire: its identifier, then its payload.
pub open spec fn wire_message(m: MessageView) -> Seq<u8> {
    wire_message_id(m.id) + wire_payload(m.payload)
}

/// Reads an application message.
pub open spec fn parse_message(s: Seq<u8>) -> Option<(MessageView, Seq<u8>)> {
    match parse_message_id(s) {
        Some((id, s1)) => match parse_payload(s1) {
            Some((payload, s2)) => Some((MessageView { id, payload }, s2)),
            None => None,
        },
        None => None,
    }
}

/// A `GOSSIP` message on the wire.
pub open spec fn wire_gossip(m: GossipMessageView) -> Seq<u8> {
    wire_node_id(m.sender) + wire_message(m.message) + wire_u16(m.round)
}

/// Reads a `GOSSIP` message.
pub open spec fn parse_gossip(s: Seq<u8>) -> Option<(GossipMessageView, Seq<u8>)> {
    match parse_node_id(s) {
        Some((sender, s1)) => match parse_message(s1) {
            Some((message, s2)) => match parse_u16(s2) {
                Some((round, s3)) => Some((GossipMessageView { sender, message, round }, s3)),
                None => None,
            },
            None => None,
        },
        None => None,
    }
}

/// An `IHAVE` message on the wire.
pub open spec fn wire_ihave(m: IhaveMessage) -> Seq<u8> {
    wire_node_id(m.sender) + wire_message_id(m.message_id) + wire_u16(m.round) + wire_bool(
        m.realtime,
    )
}

/// Reads an `IHAVE` message.
pub open spec fn parse_ihave(s: Seq<u8>) -> Option<(IhaveMessage, Seq<u8>)> {
    match parse_node_id(s) {
        Some((sender, s1)) => match parse_message_id(s1) {
            Some((message_id, s2)) => match parse_u16(s2) {
                Some((round, s3)) => match parse_bool(s3) {
                    Some((realtime, s4)) => Some(
                        (IhaveMessage { sender, message_id, round, realtime }, s4),
                    ),
                    None => None,
                },
                None => None,
            },
            None => None,
        },
        None => None,
    }
}

/// A `GRAFT` message on the wire.
pub open spec fn wire_graft(m: GraftMessage) -> Seq<u8> {
    wire_node_id(m.sender) + wire_optional_message_id(m.message_id) + wire_u16(m.round)
}

/// Reads a `GRAFT` message.
pub open spec fn parse_graft(s: Seq<u8>) -> Option<(GraftMessage, Seq<u8>)> {
    match parse_node_id(s) {
        Some((sender, s1)) => match parse_optional_message_id(s1) {
            Some((message_id, s2)) => match parse_u16(s2) {
                Some((round, s3)) => Some((GraftMessage { sender, message_id, round }, s3)),
                None => None,
            },
            None => None,
        },
        None => None,
    }
}

/// A `PRUNE` message on the wire.
pub open spec fn wire_prune(m: PruneMessage) -> Seq<u8> {
    wire_node_id(m.sender)
}

/// Reads a `PRUNE` message.
pub open spec fn parse_prune(s: Seq<u8>) -> Option<(PruneMessage, Seq<u8>)> {
    match parse_node_id(s) {
        Some((sender, s1)) => Some((PruneMessage { sender }, s1)),
        None => None,
    }
}

/// A message of the broadcast protocol on the wire.
pub open spec fn wire_plumtree(m: PlumtreeMessageView) -> Seq<u8> {
    match m {
        PlumtreeMessageView::Gossip(m) => wire_gossip(m),
        PlumtreeMessageView::Ihave(m) => wire_ihave(m),
        PlumtreeMessageView::Graft(m) => wire_graft(m),
        PlumtreeMessageView::Prune(m) => wire_prune(m),
    }
}

/// A message of the membership protocol on the wire.
pub open spec fn wire_hyparview(m: HyparviewMessageView) -> Seq<u8> {
    match m {
        HyparviewMessageView::Join { sender } => wire_node_id(sender),
        HyparviewMessageView::ForwardJoin { sender, new_node, ttl } => wire_node_id(sender)
            + wire_node_id(new_node) + wire_u8(ttl),
        HyparviewMessageView::Neighbor { sender, high_priority } => wire_node_id(sender)
            + wire_bool(high_priority),
        HyparviewMessageView::Shuffle { sender, origin, nodes, ttl } => wire_node_id(sender)
            + wire_node_id(origin) + wire_nodes(nodes) + wire_u8(ttl),
        HyparviewMessageView::ShuffleReply { sender, nodes } => wire_node_id(sender) + wire_nodes(
            nodes,
        ),
        HyparviewMessageView::Disconnect { sender } => wire_node_id(sender),
    }
}

/// Reads a `ForwardJoin` message.
pub open spec fn parse_forward_join(s: Seq<u8>) -> Option<(HyparviewMessageView, Seq<u8>)> {
    match parse_node_id(s) {
        Some((sender, s1)) => match parse_node_id(s1) {
            Some((new_node, s2)) => match parse_u8(s2) {
                Some((ttl, s3)) => Some(
                    (HyparviewMessageView::ForwardJoin { sender, new_node, ttl }, s3),
                ),
                None => None,
            },
            None => None,
        },
        None => None,
    }
}

/// Reads a `Neighbor` message.
pub open spec fn parse_neighbor(s: Seq<u8>) -> Option<(HyparviewMessageView, Seq<u8>)> {
    match parse_node_id(s) {
        Some((sender, s1)) => match parse_bool(s1) {
            Some((high_priority, s2)) => Some(
                (HyparviewMessageView::Neighbor { sender, high_priority }, s2),
            ),
            None => None,
        },
        None => None,
    }
}

/// Reads a `Shuffle` message.
pub open spec fn parse_shuffle(s: Seq<u8>) -> Option<(HyparviewMessageView, Seq<u8>)> {
    match parse_node_id(s) {
        Some((sender, s1)) => match parse_node_id(s1) {
            Some((origin, s2)) => match parse_nodes(s2) {
                Some((nodes, s3)) => match parse_u8(s3) {
                    Some((ttl, s4)) => Some(
                        (HyparviewMessageView::Shuffle { sender, origin, nodes, ttl }, s4),
                    ),
                    None => None,
                },
                None => None,
            },
            None => None,
        },
        None => None,
    }
}

/// Reads a `ShuffleReply` message.
pub open spec fn parse_shuffle_reply(s: Seq<u8>) -> Option<(HyparviewMessageView, Seq<u8>)> {
    match parse_node_id(s) {
        Some((sender, s1)) => match parse_nodes(s1) {
            Some((nodes, s2)) => Some((HyparviewMessageView::ShuffleReply { sender, nodes }, s2)),
            None => None,
        },
        None => None,
    }
}

/// The procedure that carries a message with the content `m`.
pub open spec fn procedure_of_view(m: RpcMessageView) -> u32 {
    match m {
        RpcMessageView::Hyparview(HyparviewMessageView::Join { .. }) => JOIN_ID,
        RpcMessageView::Hyparview(HyparviewMessageView::ForwardJoin { .. }) => FORWARD_JOIN_ID,
        RpcMessageView::Hyparview(HyparviewMessageView::Neighbor { .. }) => NEIGHBOR_ID,
        RpcMessageView::Hyparview(HyparviewMessageView::Shuffle { .. }) => SHUFFLE_ID,
        RpcMessageView::Hyparview(HyparviewMessageView::ShuffleReply { .. }) => SHUFFLE_REPLY_ID,
        RpcMessageView::Hyparview(HyparviewMessageView::Disconnect { .. }) => DISCONNECT_ID,
        RpcMessageView::Plumtree(PlumtreeMessageView::Gossip(_)) => GossipCast::ID,
        RpcMessageView::Plumtree(PlumtreeMessageView::Ihave(_)) => IhaveCast::ID,
        RpcMessageView::Plumtree(PlumtreeMessageView::Graft(_)) => GraftCast::ID,
        RpcMessageView::Plumtree(PlumtreeMessageView::Prune(_)) => PruneCast::ID,
    }
}

/// Whether the lengths that a message with the content `m` holds fit the
/// length fields of the format.
pub open spec fn encodable(m: RpcMessageView) -> bool {
    match m {
        RpcMessageView::Hyparview(HyparviewMessageView::Shuffle { nodes, .. }) => nodes.len()
            <= u32::MAX,
        RpcMessageView::Hyparview(HyparviewMessageView::ShuffleReply { nodes, .. }) => nodes.len()
            <= u32::MAX,
        RpcMessageView::Plumtree(PlumtreeMessageView::Gossip(m)) => m.message.payload.len()
            <= u32::MAX,
        _ => true,
    }
}

/// A protocol message on the wire.
pub open spec fn wire_rpc(m: RpcMessageView) -> Seq<u8> {
    match m {
        RpcMessageView::Hyparview(m) => wire_hyparview(m),
        RpcMessageView::Plumtree(m) => wire_plumtree(m),
    }
}

/// What was read, with the value that was read made into a protocol message
/// by `wrap`.
pub open spec fn wrapped<A>(
    parsed: Option<(A, Seq<u8>)>,
    wrap: spec_fn(A) -> RpcMessageView,
) -> Option<(RpcMessageView, Seq<u8>)> {
    match parsed {
        Some((value, rest)) => Some((wrap(value), rest)),
        None => None,
    }
}

/// Reads the protocol message that the procedure `procedure` carries. A
/// procedure that is none of this library's carries no message.
pub open spec fn parse_rpc(procedure: u32, s: Seq<u8>) -> Option<(RpcMessageView, Seq<u8>)> {
    if procedure == JOIN_ID {
        wrapped(
            parse_node_id(s),
            |sender: NodeId| RpcMessageView::Hyparview(HyparviewMessageView::Join { sender }),
        )
    } else if procedure == FORWARD_JOIN_ID {
        wrapped(parse_forward_join(s), |m: HyparviewMessageView| RpcMessageView::Hyparview(m))
    } else if procedure == NEIGHBOR_ID {
        wrapped(parse_neighbor(s), |m: HyparviewMessageView| RpcMessageView::Hyparview(m))
    } else if procedure == SHUFFLE_ID {
        wrapped(parse_shuffle(s), |m: HyparviewMessageView| RpcMessageView::Hyparview(m))
    } else if procedure == SHUFFLE_REPLY_ID {
        wrapped(parse_shuffle_reply(s), |m: HyparviewMessageView| RpcMessageView::Hyparview(m))
    } else if procedure == DISCONNECT_ID {
        wrapped(
            parse_node_id(s),
            |sender: NodeId| RpcMessageView::Hyparview(HyparviewMessageView::Disconnect { sender }),
        )
    } else if procedure == GossipCast::ID {
        wrapped(
            parse_gossip(s),
            |m: GossipMessageView| RpcMessageView::Plumtree(PlumtreeMessageView::Gossip(m)),
        )
    } else if procedure == IhaveCast::ID {
        wrapped(
            parse_ihave(s),
            |m: IhaveMessage| RpcMessageView::Plumtree(PlumtreeMessageView::Ihave(m)),
        )
    } else if procedure == GraftCast::ID {
        wrapped(
            parse_graft(s),
            |m: GraftMessage| RpcMessageView::Plumtree(PlumtreeMessageView::Graft(m)),
        )
    } else if procedure == PruneCast::ID {
        wrapped(
            parse_prune(s),
            |m: PruneMessage| RpcMessageView::Plumtree(PlumtreeMessageView::Prune(m)),
        )
    } else {
        None
    }
}

/// The payload of a cast: the local identifier of the receiving node, then
/// the protocol message.
pub open spec fn wire_notification(local_id: LocalNodeId, m: RpcMessageView) -> Seq<u8> {
    wire_local_id(local_id) + wire_rpc(m)
}

/// Reads the payload of a cast of the procedure `procedure`. Bytes that are
/// left over behind the message are refused.
pub open spec fn parse_notification(procedure: u32, s: Seq<u8>) -> Option<
    (LocalNodeId, RpcMessageView),
> {
    match parse_local_id(s) {
        Some((local_id, s1)) => match parse_rpc(procedure, s1) {
            Some((m, s2)) => if s2.len() == 0 {
                Some((local_id, m))
            } else {
                None
            },
            None => None,
        },
        None => None,
    }
}

} // verus!
