//! The laws of the format: reading undoes writing, and what is read was
//! written.
use crate::codec::format::{
    encodable, parse_addr, parse_bool, parse_forward_join, parse_gossip, parse_graft,
    parse_ihave, parse_local_id, parse_message, parse_message_id, parse_neighbor,
    parse_node_id, parse_node_items, parse_nodes, parse_notification,
    parse_optional_message_id, parse_payload, parse_prune, parse_rpc, parse_shuffle,
    parse_shuffle_reply, parse_u128, parse_u16, parse_u32, parse_u64, parse_u8,
    procedure_of_view, wire_addr, wire_bool, wire_gossip, wire_graft, wire_hyparview,
    wire_ihave, wire_local_id, wire_message, wire_message_id, wire_node_id, wire_node_items,
    wire_nodes, wire_notification, wire_optional_message_id, wire_payload, wire_plumtree,
    wire_prune, wire_rpc, wire_u128, wire_u16, wire_u32, wire_u64, wire_u8,
};
use crate::message::{
    GossipMessageView, GraftMessage, HyparviewMessageView, IhaveMessage, MessageView,
    PlumtreeMessageView, PruneMessage,
};
use crate::node::{LocalNodeId, MessageId, NodeAddr, NodeId};
use crate::rpc::hyparview::{
    DISCONNECT_ID, FORWARD_JOIN_ID, JOIN_ID, NEIGHBOR_ID, SHUFFLE_ID, SHUFFLE_REPLY_ID,
};
use crate::rpc::plumtree::{GossipCast, GraftCast, IhaveCast, PruneCast};
use crate::rpc::{procedure_of, RpcMessage, RpcMessageView};
use vstd::bytes::{
    lemma_auto_spec_u128_to_from_le_bytes, lemma_auto_spec_u16_to_from_le_bytes,
    lemma_auto_spec_u32_to_from_le_bytes, lemma_auto_spec_u64_to_from_le_bytes,
};
use vstd::prelude::*;

verus! {

/// Reading undoes writing, for a byte.
pub proof fn lemma_parse_wire_u8(x: u8, rest: Seq<u8>)
    ensures
        parse_u8(wire_u8(x) + rest) == Some((x, rest)),
{
    assert((wire_u8(x) + rest).skip(1) =~= rest);
}

/// Reading undoes writing, for a flag.
pub proof fn lemma_parse_wire_bool(x: bool, rest: Seq<u8>)
    ensures
        parse_bool(wire_bool(x) + rest) == Some((x, rest)),
{
    assert((wire_bool(x) + rest).skip(1) =~= rest);
}

/// Reading undoes writing, for a 16-bit number.
pub proof fn lemma_parse_wire_u16(x: u16, rest: Seq<u8>)
    ensures
        parse_u16(wire_u16(x) + rest) == Some((x, rest)),
        wire_u16(x).len() == 2,
{
    lemma_auto_spec_u16_to_from_le_bytes();
    assert((wire_u16(x) + rest).take(2) =~= wire_u16(x));
    assert((wire_u16(x) + rest).skip(2) =~= rest);
}

/// Reading undoes writing, for a 32-bit number.
pub proof fn lemma_parse_wire_u32(x: u32, rest: Seq<u8>)
    ensures
        parse_u32(wire_u32(x) + rest) == Some((x, rest)),
        wire_u32(x).len() == 4,
{
    lemma_auto_spec_u32_to_from_le_bytes();
    assert((wire_u32(x) + rest).take(4) =~= wire_u32(x));
    assert((wire_u32(x) + rest).skip(4) =~= rest);
}

/// Reading undoes writing, for a 64-bit number.
pub proof fn lemma_parse_wire_u64(x: u64, rest: Seq<u8>)
    ensures
        parse_u64(wire_u64(x) + rest) == Some((x, rest)),
        wire_u64(x).len() == 8,
{
    lemma_auto_spec_u64_to_from_le_bytes();
    assert((wire_u64(x) + rest).take(8) =~= wire_u64(x));
    assert((wire_u64(x) + rest).skip(8) =~= rest);
}

/// Reading undoes writing, for a 128-bit number.
pub proof fn lemma_parse_wire_u128(x: u128, rest: Seq<u8>)
    ensures
        parse_u128(wire_u128(x) + rest) == Some((x, rest)),
        wire_u128(x).len() == 16,
{
    lemma_auto_spec_u128_to_from_le_bytes();
    assert((wire_u128(x) + rest).take(16) =~= wire_u128(x));
    assert((wire_u128(x) + rest).skip(16) =~= rest);
}

/// Reading undoes writing, for a local identifier.
pub proof fn lemma_parse_wire_local_id(id: LocalNodeId, rest: Seq<u8>)
    ensures
        parse_local_id(wire_local_id(id) + rest) == Some((id, rest)),
{
    lemma_parse_wire_u64(id.spec_value(), rest);
    LocalNodeId::lemma_wraps(id, 0);
}

/// Reading undoes writing, for an address.
pub proof fn lemma_parse_wire_addr(addr: NodeAddr, rest: Seq<u8>)
    ensures
        parse_addr(wire_addr(addr) + rest) == Some((addr, rest)),
{
    match addr {
        NodeAddr::V4 { ip, port } => {
            let s1 = wire_u32(ip) + (wire_u16(port) + rest);
            assert(wire_addr(addr) + rest =~= wire_u8(4) + s1);
            lemma_parse_wire_u8(4, s1);
            lemma_parse_wire_u32(ip, wire_u16(port) + rest);
            lemma_parse_wire_u16(port, rest);
        },
        NodeAddr::V6 { ip, port, flowinfo, scope_id } => {
            let s4 = wire_u32(scope_id) + rest;
            let s3 = wire_u32(flowinfo) + s4;
            let s2 = wire_u16(port) + s3;
            let s1 = wire_u128(ip) + s2;
            assert(wire_addr(addr) + rest =~= wire_u8(6) + s1);
            lemma_parse_wire_u8(6, s1);
            lemma_parse_wire_u128(ip, s2);
            lemma_parse_wire_u16(port, s3);
            lemma_parse_wire_u32(flowinfo, s4);
            lemma_parse_wire_u32(scope_id, rest);
        },
    }
}

/// Reading undoes writing, for a node identifier.
pub proof fn lemma_parse_wire_node_id(id: NodeId, rest: Seq<u8>)
    ensures
        parse_node_id(wire_node_id(id) + rest) == Some((id, rest)),
{
    let s1 = wire_local_id(id.local_id) + rest;
    assert(wire_node_id(id) + rest =~= wire_addr(id.addr) + s1);
    lemma_parse_wire_addr(id.addr, s1);
    lemma_parse_wire_local_id(id.local_id, rest);
}

/// Reading undoes writing, for a message identifier.
pub proof fn lemma_parse_wire_message_id(id: MessageId, rest: Seq<u8>)
    ensures
        parse_message_id(wire_message_id(id) + rest) == Some((id, rest)),
{
    let s1 = wire_u64(id.seqno) + rest;
    assert(wire_message_id(id) + rest =~= wire_node_id(id.node_id) + s1);
    lemma_parse_wire_node_id(id.node_id, s1);
    lemma_parse_wire_u64(id.seqno, rest);
}

/// Reading undoes writing, for a message identifier that may be missing.
pub proof fn lemma_parse_wire_optional_message_id(id: Option<MessageId>, rest: Seq<u8>)
    ensures
        parse_optional_message_id(wire_optional_message_id(id) + rest) == Some((id, rest)),
{
    match id {
        Some(id) => {
            let s1 = wire_message_id(id) + rest;
            assert(wire_optional_message_id(Some(id)) + rest =~= wire_bool(true) + s1);
            lemma_parse_wire_bool(true, s1);
            lemma_parse_wire_message_id(id, rest);
        },
        None => {
            lemma_parse_wire_bool(false, rest);
        },
    }
}

/// Reading undoes writing, for a payload whose length fits the length field.
pub proof fn lemma_parse_wire_payload(payload: Seq<u8>, rest: Seq<u8>)
    requires
        payload.len() <= u32::MAX,
    ensures
        parse_payload(wire_payload(payload) + rest) == Some((payload, rest)),
{
    let s1 = payload + rest;
    assert(wire_payload(payload) + rest =~= wire_u32(payload.len() as u32) + s1);
    lemma_parse_wire_u32(payload.len() as u32, s1);
    assert(s1.take(payload.len() as int) =~= payload);
    assert(s1.skip(payload.len() as int) =~= rest);
}

/// Reading undoes writing, for the nodes of a list.
pub proof fn lemma_parse_wire_node_items(nodes: Seq<NodeId>, rest: Seq<u8>)
    ensures
        parse_node_items(wire_node_items(nodes) + rest, nodes.len()) == Some((nodes, rest)),
    decreases nodes.len(),
{
    if nodes.len() == 0 {
        assert(wire_node_items(nodes) + rest =~= rest);
        assert(nodes =~= Seq::<NodeId>::empty());
    } else {
        let tail = nodes.drop_first();
        let s1 = wire_node_items(tail) + rest;
        assert(wire_node_items(nodes) + rest =~= wire_node_id(nodes.first()) + s1);
        lemma_parse_wire_node_id(nodes.first(), s1);
        lemma_parse_wire_node_items(tail, rest);
        assert(seq![nodes.first()] + tail =~= nodes);
    }
}

/// Reading undoes writing, for a list of nodes whose length fits the length
/// field.
pub proof fn lemma_parse_wire_nodes(nodes: Seq<NodeId>, rest: Seq<u8>)
    requires
        nodes.len() <= u32::MAX,
    ensures
        parse_nodes(wire_nodes(nodes) + rest) == Some((nodes, rest)),
{
    let s1 = wire_node_items(nodes) + rest;
    assert(wire_nodes(nodes) + rest =~= wire_u32(nodes.len() as u32) + s1);
    lemma_parse_wire_u32(nodes.len() as u32, s1);
    lemma_parse_wire_node_items(nodes, rest);
}

/// Reading undoes writing, for an application message.
pub proof fn lemma_parse_wire_message(m: MessageView, rest: Seq<u8>)
    requires
        m.payload.len() <= u32::MAX,
    ensures
        parse_message(wire_message(m) + rest) == Some((m, rest)),
{
    let s1 = wire_payload(m.payload) + rest;
    assert(wire_message(m) + rest =~= wire_message_id(m.id) + s1);
    lemma_parse_wire_message_id(m.id, s1);
    lemma_parse_wire_payload(m.payload, rest);
}

/// Reading undoes writing, for a `GOSSIP` message.
pub proof fn lemma_parse_wire_gossip(m: GossipMessageView, rest: Seq<u8>)
    requires
        m.message.payload.len() <= u32::MAX,
    ensures
        parse_gossip(wire_gossip(m) + rest) == Some((m, rest)),
{
    let s2 = wire_u16(m.round) + rest;
    let s1 = wire_message(m.message) + s2;
    assert(wire_gossip(m) + rest =~= wire_node_id(m.sender) + s1);
    lemma_parse_wire_node_id(m.sender, s1);
    lemma_parse_wire_message(m.message, s2);
    lemma_parse_wire_u16(m.round, rest);
}

/// Reading undoes writing, for an `IHAVE` message.
pub proof fn lemma_parse_wire_ihave(m: IhaveMessage, rest: Seq<u8>)
    ensures
        parse_ihave(wire_ihave(m) + rest) == Some((m, rest)),
{
    let s3 = wire_bool(m.realtime) + rest;
    let s2 = wire_u16(m.round) + s3;
    let s1 = wire_message_id(m.message_id) + s2;
    assert(wire_ihave(m) + rest =~= wire_node_id(m.sender) + s1);
    lemma_parse_wire_node_id(m.sender, s1);
    lemma_parse_wire_message_id(m.message_id, s2);
    lemma_parse_wire_u16(m.round, s3);
    lemma_parse_wire_bool(m.realtime, rest);
}

/// Reading undoes writing, for a `GRAFT` message.
pub proof fn lemma_parse_wire_graft(m: GraftMessage, rest: Seq<u8>)
    ensures
        parse_graft(wire_graft(m) + rest) == Some((m, rest)),
{
    let s2 = wire_u16(m.round) + rest;
    let s1 = wire_optional_message_id(m.message_id) + s2;
    assert(wire_graft(m) + rest =~= wire_node_id(m.sender) + s1);
    lemma_parse_wire_node_id(m.sender, s1);
    lemma_parse_wire_optional_message_id(m.message_id, s2);
    lemma_parse_wire_u16(m.round, rest);
}

/// Reading undoes writing, for a `PRUNE` message.
pub proof fn lemma_parse_wire_prune(m: PruneMessage, rest: Seq<u8>)
    ensures
        parse_prune(wire_prune(m) + rest) == Some((m, rest)),
{
    lemma_parse_wire_node_id(m.sender, rest);
}

/// Reading undoes writing, for a message of the broadcast protocol.
pub proof fn lemma_parse_wire_plumtree(m: PlumtreeMessageView, rest: Seq<u8>)
    requires
        encodable(RpcMessageView::Plumtree(m)),
    ensures
        parse_rpc(procedure_of_view(RpcMessageView::Plumtree(m)), wire_plumtree(m) + rest) == Some(
            (RpcMessageView::Plumtree(m), rest),
        ),
{
    match m {
        PlumtreeMessageView::Gossip(g) => {
            lemma_parse_wire_gossip(g, rest);
        },
        PlumtreeMessageView::Ihave(i) => {
            lemma_parse_wire_ihave(i, rest);
        },
        PlumtreeMessageView::Graft(g) => {
            lemma_parse_wire_graft(g, rest);
        },
        PlumtreeMessageView::Prune(p) => {
            lemma_parse_wire_prune(p, rest);
        },
    }
}

/// Reading undoes writing, for a `ForwardJoin` message.
pub proof fn lemma_parse_wire_forward_join(sender: NodeId, new_node: NodeId, ttl: u8, rest: Seq<u8>)
    ensures
        parse_forward_join(
            wire_hyparview(HyparviewMessageView::ForwardJoin { sender, new_node, ttl }) + rest,
        ) == Some((HyparviewMessageView::ForwardJoin { sender, new_node, ttl }, rest)),
{
    let m = HyparviewMessageView::ForwardJoin { sender, new_node, ttl };
    let s2 = wire_u8(ttl) + rest;
    let s1 = wire_node_id(new_node) + s2;
    assert(wire_hyparview(m) + rest =~= wire_node_id(sender) + s1);
    lemma_parse_wire_node_id(sender, s1);
    lemma_parse_wire_node_id(new_node, s2);
    lemma_parse_wire_u8(ttl, rest);
}

/// Reading undoes writing, for a `Neighbor` message.
pub proof fn lemma_parse_wire_neighbor(sender: NodeId, high_priority: bool, rest: Seq<u8>)
    ensures
        parse_neighbor(
            wire_hyparview(HyparviewMessageView::Neighbor { sender, high_priority }) + rest,
        ) == Some((HyparviewMessageView::Neighbor { sender, high_priority }, rest)),
{
    let m = HyparviewMessageView::Neighbor { sender, high_priority };
    let s1 = wire_bool(high_priority) + rest;
    assert(wire_hyparview(m) + rest =~= wire_node_id(sender) + s1);
    lemma_parse_wire_node_id(sender, s1);
    lemma_parse_wire_bool(high_priority, rest);
}

/// Reading undoes writing, for a `Shuffle` message.
pub proof fn lemma_parse_wire_shuffle(
    sender: NodeId,
    origin: NodeId,
    nodes: Seq<NodeId>,
    ttl: u8,
    rest: Seq<u8>,
)
    requires
        nodes.len() <= u32::MAX,
    ensures
        parse_shuffle(
            wire_hyparview(HyparviewMessageView::Shuffle { sender, origin, nodes, ttl }) + rest,
        ) == Some((HyparviewMessageView::Shuffle { sender, origin, nodes, ttl }, rest)),
{
    let m = HyparviewMessageView::Shuffle { sender, origin, nodes, ttl };
    let s3 = wire_u8(ttl) + rest;
    let s2 = wire_nodes(nodes) + s3;
    let s1 = wire_node_id(origin) + s2;
    assert(wire_hyparview(m) + rest =~= wire_node_id(sender) + s1);
    lemma_parse_wire_node_id(sender, s1);
    lemma_parse_wire_node_id(origin, s2);
    lemma_parse_wire_nodes(nodes, s3);
    lemma_parse_wire_u8(ttl, rest);
}

/// Reading undoes writing, for a `ShuffleReply` message.
pub proof fn lemma_parse_wire_shuffle_reply(sender: NodeId, nodes: Seq<NodeId>, rest: Seq<u8>)
    requires
        nodes.len() <= u32::MAX,
    ensures
        parse_shuffle_reply(
            wire_hyparview(HyparviewMessageView::ShuffleReply { sender, nodes }) + rest,
        ) == Some((HyparviewMessageView::ShuffleReply { sender, nodes }, rest)),
{
    let m = HyparviewMessageView::ShuffleReply { sender, nodes };
    let s1 = wire_nodes(nodes) + rest;
    assert(wire_hyparview(m) + rest =~= wire_node_id(sender) + s1);
    lemma_parse_wire_node_id(sender, s1);
    lemma_parse_wire_nodes(nodes, rest);
}

/// Reading undoes writing, for a message of the membership protocol.
pub proof fn lemma_parse_wire_hyparview(m: HyparviewMessageView, rest: Seq<u8>)
    requires
        encodable(RpcMessageView::Hyparview(m)),
    ensures
        parse_rpc(procedure_of_view(RpcMessageView::Hyparview(m)), wire_hyparview(m) + rest)
            == Some((RpcMessageView::Hyparview(m), rest)),
{
    match m {
        HyparviewMessageView::Join { sender } => {
            lemma_parse_wire_node_id(sender, rest);
        },
        HyparviewMessageView::ForwardJoin { sender, new_node, ttl } => {
            lemma_parse_wire_forward_join(sender, new_node, ttl, rest);
        },
        HyparviewMessageView::Neighbor { sender, high_priority } => {
            lemma_parse_wire_neighbor(sender, high_priority, rest);
        },
        HyparviewMessageView::Shuffle { sender, origin, nodes, ttl } => {
            lemma_parse_wire_shuffle(sender, origin, nodes, ttl, rest);
        },
        HyparviewMessageView::ShuffleReply { sender, nodes } => {
            lemma_parse_wire_shuffle_reply(sender, nodes, rest);
        },
        HyparviewMessageView::Disconnect { sender } => {
            lemma_parse_wire_node_id(sender, rest);
        },
    }
}

/// Decoding undoes encoding: the payload of a cast, read as a payload of the
/// procedure of its message, gives back the local identifier and the message
/// that were written, whatever they are, as long as the lengths in the
/// message fit the length fields.
pub proof fn lemma_decode_undoes_encode(local_id: LocalNodeId, m: RpcMessageView)
    requires
        encodable(m),
    ensures
        parse_notification(procedure_of_view(m), wire_notification(local_id, m)) == Some(
            (local_id, m),
        ),
{
    let empty = Seq::<u8>::empty();
    assert(wire_notification(local_id, m) =~= wire_local_id(local_id) + (wire_rpc(m) + empty));
    lemma_parse_wire_local_id(local_id, wire_rpc(m) + empty);
    match m {
        RpcMessageView::Hyparview(h) => {
            lemma_parse_wire_hyparview(h, empty);
        },
        RpcMessageView::Plumtree(p) => {
            lemma_parse_wire_plumtree(p, empty);
        },
    }
}

/// The procedure of a message is the procedure of its content.
pub proof fn lemma_procedure_of_view(m: RpcMessage)
    ensures
        procedure_of_view(m@) == procedure_of(m),
{
}

/// What is read was written, for a byte: the bytes that were read are the
/// bytes of the value, and what follows them is the rest.
pub proof fn lemma_wire_parse_u8(s: Seq<u8>)
    ensures
        parse_u8(s) matches Some((x, rest)) ==> wire_u8(x) + rest == s,
{
    if s.len() >= 1 {
        assert(wire_u8(s[0]) + s.skip(1) =~= s);
    }
}

/// What is read was written, for a flag.
pub proof fn lemma_wire_parse_bool(s: Seq<u8>)
    ensures
        parse_bool(s) matches Some((x, rest)) ==> wire_bool(x) + rest == s,
{
    if s.len() >= 1 && s[0] <= 1 {
        assert(wire_bool(s[0] == 1) + s.skip(1) =~= s);
    }
}

/// What is read was written, for a 16-bit number.
pub proof fn lemma_wire_parse_u16(s: Seq<u8>)
    ensures
        parse_u16(s) matches Some((x, rest)) ==> wire_u16(x) + rest == s,
{
    if s.len() >= 2 {
        lemma_auto_spec_u16_to_from_le_bytes();
        assert(s.take(2) + s.skip(2) =~= s);
    }
}

/// What is read was written, for a 32-bit number.
pub proof fn lemma_wire_parse_u32(s: Seq<u8>)
    ensures
        parse_u32(s) matches Some((x, rest)) ==> wire_u32(x) + rest == s,
{
    if s.len() >= 4 {
        lemma_auto_spec_u32_to_from_le_bytes();
        assert(s.take(4) + s.skip(4) =~= s);
    }
}

/// What is read was written, for a 64-bit number.
pub proof fn lemma_wire_parse_u64(s: Seq<u8>)
    ensures
        parse_u64(s) matches Some((x, rest)) ==> wire_u64(x) + rest == s,
{
    if s.len() >= 8 {
        lemma_auto_spec_u64_to_from_le_bytes();
        assert(s.take(8) + s.skip(8) =~= s);
    }
}

/// What is read was written, for a 128-bit number.
pub proof fn lemma_wire_parse_u128(s: Seq<u8>)
    ensures
        parse_u128(s) matches Some((x, rest)) ==> wire_u128(x) + rest == s,
{
    if s.len() >= 16 {
        lemma_auto_spec_u128_to_from_le_bytes();
        assert(s.take(16) + s.skip(16) =~= s);
    }
}

/// What is read was written, for a local identifier.
pub proof fn lemma_wire_parse_local_id(s: Seq<u8>)
    ensures
        parse_local_id(s) matches Some((id, rest)) ==> wire_local_id(id) + rest == s,
{
    lemma_wire_parse_u64(s);
    if let Some((value, rest)) = parse_u64(s) {
        LocalNodeId::lemma_wraps(LocalNodeId::spec_new(value), value);
    }
}

/// What is read was written, for an address.
pub proof fn lemma_wire_parse_addr(s: Seq<u8>)
    ensures
        parse_addr(s) matches Some((addr, rest)) ==> wire_addr(addr) + rest == s,
{
    lemma_wire_parse_u8(s);
    if let Some((tag, s0)) = parse_u8(s) {
        if tag == 4 {
            lemma_wire_parse_u32(s0);
            if let Some((ip, s1)) = parse_u32(s0) {
                lemma_wire_parse_u16(s1);
                if let Some((port, s2)) = parse_u16(s1) {
                    assert(wire_addr(NodeAddr::V4 { ip, port }) + s2 =~= wire_u8(4) + (wire_u32(ip)
                        + (wire_u16(port) + s2)));
                }
            }
        } else if tag == 6 {
            lemma_wire_parse_u128(s0);
            if let Some((ip, s1)) = parse_u128(s0) {
                lemma_wire_parse_u16(s1);
                if let Some((port, s2)) = parse_u16(s1) {
                    lemma_wire_parse_u32(s2);
                    if let Some((flowinfo, s3)) = parse_u32(s2) {
                        lemma_wire_parse_u32(s3);
                        if let Some((scope_id, s4)) = parse_u32(s3) {
                            assert(wire_addr(NodeAddr::V6 { ip, port, flowinfo, scope_id }) + s4
                                =~= wire_u8(6) + (wire_u128(ip) + (wire_u16(port) + (wire_u32(
                                flowinfo,
                            ) + (wire_u32(scope_id) + s4)))));
                        }
                    }
                }
            }
        }
    }
}

/// What is read was written, for a node identifier.
pub proof fn lemma_wire_parse_node_id(s: Seq<u8>)
    ensures
        parse_node_id(s) matches Some((id, rest)) ==> wire_node_id(id) + rest == s,
{
    lemma_wire_parse_addr(s);
    if let Some((addr, s1)) = parse_addr(s) {
        lemma_wire_parse_local_id(s1);
        if let Some((local_id, s2)) = parse_local_id(s1) {
            assert(wire_node_id(NodeId { addr, local_id }) + s2 =~= wire_addr(addr) + (
            wire_local_id(local_id) + s2));
        }
    }
}

/// What is read was written, for a message identifier.
pub proof fn lemma_wire_parse_message_id(s: Seq<u8>)
    ensures
        parse_message_id(s) matches Some((id, rest)) ==> wire_message_id(id) + rest == s,
{
    lemma_wire_parse_node_id(s);
    if let Some((node_id, s1)) = parse_node_id(s) {
        lemma_wire_parse_u64(s1);
        if let Some((seqno, s2)) = parse_u64(s1) {
            assert(wire_message_id(MessageId { node_id, seqno }) + s2 =~= wire_node_id(node_id) + (
            wire_u64(seqno) + s2));
        }
    }
}

/// What is read was written, for a message identifier that may be missing.
pub proof fn lemma_wire_parse_optional_message_id(s: Seq<u8>)
    ensures
        parse_optional_message_id(s) matches Some((id, rest)) ==> wire_optional_message_id(id)
            + rest == s,
{
    lemma_wire_parse_bool(s);
    if let Some((present, s1)) = parse_bool(s) {
        if present {
            lemma_wire_parse_message_id(s1);
            if let Some((id, s2)) = parse_message_id(s1) {
                assert(wire_optional_message_id(Some(id)) + s2 =~= wire_bool(true) + (
                wire_message_id(id) + s2));
            }
        }
    }
}

/// What is read was written, for a payload; and what is read fits the length
/// field.
pub proof fn lemma_wire_parse_payload(s: Seq<u8>)
    ensures
        parse_payload(s) matches Some((payload, rest)) ==> wire_payload(payload) + rest == s
            && payload.len() <= u32::MAX,
{
    lemma_wire_parse_u32(s);
    if let Some((len, s1)) = parse_u32(s) {
        if s1.len() >= len {
            let payload = s1.take(len as int);
            assert(wire_payload(payload) + s1.skip(len as int) =~= wire_u32(len) + (payload
                + s1.skip(len as int)));
            assert(payload + s1.skip(len as int) =~= s1);
        }
    }
}

/// What is read was written, for the nodes of a list; and as many nodes are
/// read as were asked for.
pub proof fn lemma_wire_parse_node_items(s: Seq<u8>, count: nat)
    ensures
        parse_node_items(s, count) matches Some((nodes, rest)) ==> wire_node_items(nodes) + rest
            == s && nodes.len() == count,
    decreases count,
{
    if count == 0 {
        assert(wire_node_items(Seq::<NodeId>::empty()) + s =~= s);
    } else {
        lemma_wire_parse_node_id(s);
        if let Some((node, s1)) = parse_node_id(s) {
            lemma_wire_parse_node_items(s1, (count - 1) as nat);
            if let Some((tail, s2)) = parse_node_items(s1, (count - 1) as nat) {
                let nodes = seq![node] + tail;
                assert(nodes.drop_first() =~= tail);
                assert(wire_node_items(nodes) + s2 =~= wire_node_id(node) + (wire_node_items(tail)
                    + s2));
            }
        }
    }
}

/// What is read was written, for a list of nodes; and what is read fits the
/// length field.
pub proof fn lemma_wire_parse_nodes(s: Seq<u8>)
    ensures
        parse_nodes(s) matches Some((nodes, rest)) ==> wire_nodes(nodes) + rest == s
            && nodes.len() <= u32::MAX,
{
    lemma_wire_parse_u32(s);
    if let Some((count, s1)) = parse_u32(s) {
        lemma_wire_parse_node_items(s1, count as nat);
        if let Some((nodes, s2)) = parse_node_items(s1, count as nat) {
            assert(wire_nodes(nodes) + s2 =~= wire_u32(count) + (wire_node_items(nodes) + s2));
        }
    }
}

/// What is read was written, for an application message.
pub proof fn lemma_wire_parse_message(s: Seq<u8>)
    ensures
        parse_message(s) matches Some((m, rest)) ==> wire_message(m) + rest == s
            && m.payload.len() <= u32::MAX,
{
    lemma_wire_parse_message_id(s);
    if let Some((id, s1)) = parse_message_id(s) {
        lemma_wire_parse_payload(s1);
        if let Some((payload, s2)) = parse_payload(s1) {
            assert(wire_message(MessageView { id, payload }) + s2 =~= wire_message_id(id) + (
            wire_payload(payload) + s2));
        }
    }
}

/// What is read was written, for a `GOSSIP` message.
pub proof fn lemma_wire_parse_gossip(s: Seq<u8>)
    ensures
        parse_gossip(s) matches Some((m, rest)) ==> wire_gossip(m) + rest == s
            && m.message.payload.len() <= u32::MAX,
{
    lemma_wire_parse_node_id(s);
    if let Some((sender, s1)) = parse_node_id(s) {
        lemma_wire_parse_message(s1);
        if let Some((message, s2)) = parse_message(s1) {
            lemma_wire_parse_u16(s2);
            if let Some((round, s3)) = parse_u16(s2) {
                assert(wire_gossip(GossipMessageView { sender, message, round }) + s3
                    =~= wire_node_id(sender) + (wire_message(message) + (wire_u16(round) + s3)));
            }
        }
    }
}

/// What is read was written, for an `IHAVE` message.
pub proof fn lemma_wire_parse_ihave(s: Seq<u8>)
    ensures
        parse_ihave(s) matches Some((m, rest)) ==> wire_ihave(m) + rest == s,
{
    lemma_wire_parse_node_id(s);
    if let Some((sender, s1)) = parse_node_id(s) {
        lemma_wire_parse_message_id(s1);
        if let Some((message_id, s2)) = parse_message_id(s1) {
            lemma_wire_parse_u16(s2);
            if let Some((round, s3)) = parse_u16(s2) {
                lemma_wire_parse_bool(s3);
                if let Some((realtime, s4)) = parse_bool(s3) {
                    assert(wire_ihave(IhaveMessage { sender, message_id, round, realtime }) + s4
                        =~= wire_node_id(sender) + (wire_message_id(message_id) + (wire_u16(round)
                        + (wire_bool(realtime) + s4))));
                }
            }
        }
    }
}

/// What is read was written, for a `GRAFT` message.
pub proof fn lemma_wire_parse_graft(s: Seq<u8>)
    ensures
        parse_graft(s) matches Some((m, rest)) ==> wire_graft(m) + rest == s,
{
    lemma_wire_parse_node_id(s);
    if let Some((sender, s1)) = parse_node_id(s) {
        lemma_wire_parse_optional_message_id(s1);
        if let Some((message_id, s2)) = parse_optional_message_id(s1) {
            lemma_wire_parse_u16(s2);
            if let Some((round, s3)) = parse_u16(s2) {
                assert(wire_graft(GraftMessage { sender, message_id, round }) + s3
                    =~= wire_node_id(sender) + (wire_optional_message_id(message_id) + (wire_u16(
                    round,
                ) + s3)));
            }
        }
    }
}

/// What is read was written, for a `ForwardJoin` message.
pub proof fn lemma_wire_parse_forward_join(s: Seq<u8>)
    ensures
        parse_forward_join(s) matches Some((m, rest)) ==> wire_hyparview(m) + rest == s,
{
    lemma_wire_parse_node_id(s);
    if let Some((sender, s1)) = parse_node_id(s) {
        lemma_wire_parse_node_id(s1);
        if let Some((new_node, s2)) = parse_node_id(s1) {
            lemma_wire_parse_u8(s2);
            if let Some((ttl, s3)) = parse_u8(s2) {
                assert(wire_hyparview(HyparviewMessageView::ForwardJoin { sender, new_node, ttl })
                    + s3 =~= wire_node_id(sender) + (wire_node_id(new_node) + (wire_u8(ttl) + s3)));
            }
        }
    }
}

/// What is read was written, for a `Neighbor` message.
pub proof fn lemma_wire_parse_neighbor(s: Seq<u8>)
    ensures
        parse_neighbor(s) matches Some((m, rest)) ==> wire_hyparview(m) + rest == s,
{
    lemma_wire_parse_node_id(s);
    if let Some((sender, s1)) = parse_node_id(s) {
        lemma_wire_parse_bool(s1);
        if let Some((high_priority, s2)) = parse_bool(s1) {
            assert(wire_hyparview(HyparviewMessageView::Neighbor { sender, high_priority }) + s2
                =~= wire_node_id(sender) + (wire_bool(high_priority) + s2));
        }
    }
}

/// What is read was written, for a `Shuffle` message.
pub proof fn lemma_wire_parse_shuffle(s: Seq<u8>)
    ensures
        parse_shuffle(s) matches Some((m, rest)) ==> wire_hyparview(m) + rest == s && encodable(
            RpcMessageView::Hyparview(m),
        ),
{
    lemma_wire_parse_node_id(s);
    if let Some((sender, s1)) = parse_node_id(s) {
        lemma_wire_parse_node_id(s1);
        if let Some((origin, s2)) = parse_node_id(s1) {
            lemma_wire_parse_nodes(s2);
            if let Some((nodes, s3)) = parse_nodes(s2) {
                lemma_wire_parse_u8(s3);
                if let Some((ttl, s4)) = parse_u8(s3) {
                    assert(wire_hyparview(
                        HyparviewMessageView::Shuffle { sender, origin, nodes, ttl },
                    ) + s4 =~= wire_node_id(sender) + (wire_node_id(origin) + (wire_nodes(nodes) + (
                    wire_u8(ttl) + s4))));
                }
            }
        }
    }
}

/// What is read was written, for a `ShuffleReply` message.
pub proof fn lemma_wire_parse_shuffle_reply(s: Seq<u8>)
    ensures
        parse_shuffle_reply(s) matches Some((m, rest)) ==> wire_hyparview(m) + rest == s
            && encodable(RpcMessageView::Hyparview(m)),
{
    lemma_wire_parse_node_id(s);
    if let Some((sender, s1)) = parse_node_id(s) {
        lemma_wire_parse_nodes(s1);
        if let Some((nodes, s2)) = parse_nodes(s1) {
            assert(wire_hyparview(HyparviewMessageView::ShuffleReply { sender, nodes }) + s2
                =~= wire_node_id(sender) + (wire_nodes(nodes) + s2));
        }
    }
}

/// What is read was written, for a protocol message: the bytes that were read
/// are the bytes of the message, the message belongs to the procedure that was
/// asked for, and its lengths fit the length fields.
pub proof fn lemma_wire_parse_rpc(procedure: u32, s: Seq<u8>)
    ensures
        parse_rpc(procedure, s) matches Some((m, rest)) ==> wire_rpc(m) + rest == s
            && procedure_of_view(m) == procedure && encodable(m),
{
    if procedure == JOIN_ID || procedure == DISCONNECT_ID || procedure == PruneCast::ID {
        lemma_wire_parse_node_id(s);
    } else if procedure == FORWARD_JOIN_ID {
        lemma_wire_parse_forward_join(s);
    } else if procedure == NEIGHBOR_ID {
        lemma_wire_parse_neighbor(s);
    } else if procedure == SHUFFLE_ID {
        lemma_wire_parse_shuffle(s);
    } else if procedure == SHUFFLE_REPLY_ID {
        lemma_wire_parse_shuffle_reply(s);
    } else if procedure == GossipCast::ID {
        lemma_wire_parse_gossip(s);
    } else if procedure == IhaveCast::ID {
        lemma_wire_parse_ihave(s);
    } else if procedure == GraftCast::ID {
        lemma_wire_parse_graft(s);
    }
}

/// Encoding undoes decoding: bytes that read as the payload of a cast are,
/// byte for byte, the encoding of what was read. So every message has one
/// encoding, and the decoder accepts that one and no other.
pub proof fn lemma_encode_undoes_decode(procedure: u32, s: Seq<u8>)
    ensures
        parse_notification(procedure, s) matches Some((local_id, m)) ==> wire_notification(
            local_id,
            m,
        ) == s && procedure_of_view(m) == procedure && encodable(m),
{
    lemma_wire_parse_local_id(s);
    if let Some((local_id, s1)) = parse_local_id(s) {
        lemma_wire_parse_rpc(procedure, s1);
        if let Some((m, s2)) = parse_rpc(procedure, s1) {
            if s2.len() == 0 {
                assert(wire_rpc(m) + s2 =~= wire_rpc(m));
            }
        }
    }
}

} // verus!
