//! The writer: the executable counterpart of the `wire_..` functions.
use crate::codec::format::{
    encodable, wire_addr, wire_bool, wire_gossip, wire_graft, wire_hyparview, wire_ihave,
    wire_local_id, wire_message, wire_message_id, wire_node_id, wire_node_items, wire_nodes,
    wire_optional_message_id, wire_payload, wire_plumtree, wire_u128, wire_u16, wire_u32,
    wire_u64, wire_u8,
};
use crate::message::{HyparviewMessage, Message, PlumtreeMessage};
use crate::node::{LocalNodeId, MessageId, NodeAddr, NodeId};
use crate::rpc::RpcMessageView;
use vstd::bytes::{u128_to_le_bytes, u16_to_le_bytes, u32_to_le_bytes, u64_to_le_bytes};
use vstd::prelude::*;

verus! {

/// Writes a byte behind what `out` holds.
pub(crate) fn write_u8(out: &mut Vec<u8>, x: u8)
    ensures
        final(out)@ == old(out)@ + wire_u8(x),
{
    out.push(x);
    assert(out@ =~= old(out)@ + wire_u8(x));
}

/// Writes a flag behind what `out` holds.
pub(crate) fn write_bool(out: &mut Vec<u8>, x: bool)
    ensures
        final(out)@ == old(out)@ + wire_bool(x),
{
    out.push(if x { 1 } else { 0 });
    assert(out@ =~= old(out)@ + wire_bool(x));
}

/// Writes a 16-bit number behind what `out` holds.
pub(crate) fn write_u16(out: &mut Vec<u8>, x: u16)
    ensures
        final(out)@ == old(out)@ + wire_u16(x),
{
    let mut bytes = u16_to_le_bytes(x);
    out.append(&mut bytes);
}

/// Writes a 32-bit number behind what `out` holds.
pub(crate) fn write_u32(out: &mut Vec<u8>, x: u32)
    ensures
        final(out)@ == old(out)@ + wire_u32(x),
{
    let mut bytes = u32_to_le_bytes(x);
    out.append(&mut bytes);
}

/// Writes a 64-bit number behind what `out` holds.
pub(crate) fn write_u64(out: &mut Vec<u8>, x: u64)
    ensures
        final(out)@ == old(out)@ + wire_u64(x),
{
    let mut bytes = u64_to_le_bytes(x);
    out.append(&mut bytes);
}

/// Writes a 128-bit number behind what `out` holds.
pub(crate) fn write_u128(out: &mut Vec<u8>, x: u128)
    ensures
        final(out)@ == old(out)@ + wire_u128(x),
{
    let mut bytes = u128_to_le_bytes(x);
    out.append(&mut bytes);
}

pub(crate) fn write_local_id(out: &mut Vec<u8>, id: LocalNodeId)
    ensures
        final(out)@ == old(out)@ + wire_local_id(id),
{
    write_u64(out, id.value());
}

pub(crate) fn write_addr(out: &mut Vec<u8>, addr: NodeAddr)
    ensures
        final(out)@ == old(out)@ + wire_addr(addr),
{
    match addr {
        NodeAddr::V4 { ip, port } => {
            write_u8(out, 4);
            write_u32(out, ip);
            write_u16(out, port);
            assert(out@ =~= old(out)@ + wire_addr(addr));
        },
        NodeAddr::V6 { ip, port, flowinfo, scope_id } => {
            write_u8(out, 6);
            write_u128(out, ip);
            write_u16(out, port);
            write_u32(out, flowinfo);
            write_u32(out, scope_id);
            assert(out@ =~= old(out)@ + wire_addr(addr));
        },
    }
}

pub(crate) fn write_node_id(out: &mut Vec<u8>, id: NodeId)
    ensures
        final(out)@ == old(out)@ + wire_node_id(id),
{
    write_addr(out, id.addr);
    write_local_id(out, id.local_id);
    assert(out@ =~= old(out)@ + wire_node_id(id));
}

pub(crate) fn write_message_id(out: &mut Vec<u8>, id: MessageId)
    ensures
        final(out)@ == old(out)@ + wire_message_id(id),
{
    write_node_id(out, id.node_id);
    write_u64(out, id.seqno);
    assert(out@ =~= old(out)@ + wire_message_id(id));
}

pub(crate) fn write_optional_message_id(out: &mut Vec<u8>, id: Option<MessageId>)
    ensures
        final(out)@ == old(out)@ + wire_optional_message_id(id),
{
    match id {
        Some(id) => {
            write_bool(out, true);
            write_message_id(out, id);
            assert(out@ =~= old(out)@ + wire_optional_message_id(Some(id)));
        },
        None => {
            write_bool(out, false);
        },
    }
}

pub(crate) fn write_payload(out: &mut Vec<u8>, payload: &Vec<u8>)
    requires
        payload@.len() <= u32::MAX,
    ensures
        final(out)@ == old(out)@ + wire_payload(payload@),
{
    write_u32(out, payload.len() as u32);
    out.extend_from_slice(payload.as_slice());
    assert(out@ =~= old(out)@ + wire_payload(payload@));
}

pub(crate) fn write_nodes(out: &mut Vec<u8>, nodes: &Vec<NodeId>)
    requires
        nodes@.len() <= u32::MAX,
    ensures
        final(out)@ == old(out)@ + wire_nodes(nodes@),
{
    write_u32(out, nodes.len() as u32);
    let ghost start = out@;
    let mut i: usize = 0;
    proof {
        assert(nodes@.skip(0) =~= nodes@);
    }
    while i < nodes.len()
        invariant
            i <= nodes.len(),
            out@ + wire_node_items(nodes@.skip(i as int)) == start + wire_node_items(nodes@),
        decreases nodes.len() - i,
    {
        let ghost before = out@;
        write_node_id(out, nodes[i]);
        proof {
            let rest = nodes@.skip(i as int);
            assert(rest.drop_first() =~= nodes@.skip(i + 1));
            assert(out@ + wire_node_items(nodes@.skip(i + 1)) =~= before + wire_node_items(rest));
        }
        i = i + 1;
    }
    proof {
        assert(out@ + wire_node_items(nodes@.skip(nodes@.len() as int)) =~= out@);
        assert(out@ =~= old(out)@ + wire_nodes(nodes@));
    }
}

pub(crate) fn write_message(out: &mut Vec<u8>, m: &Message)
    requires
        m@.payload.len() <= u32::MAX,
    ensures
        final(out)@ == old(out)@ + wire_message(m@),
{
    write_message_id(out, m.id);
    write_payload(out, &m.payload);
    assert(out@ =~= old(out)@ + wire_message(m@));
}

pub(crate) fn write_plumtree(out: &mut Vec<u8>, m: &PlumtreeMessage)
    requires
        encodable(RpcMessageView::Plumtree(m@)),
    ensures
        final(out)@ == old(out)@ + wire_plumtree(m@),
{
    match m {
        PlumtreeMessage::Gossip(g) => {
            write_node_id(out, g.sender);
            write_message(out, &g.message);
            write_u16(out, g.round);
            assert(out@ =~= old(out)@ + wire_gossip(g@));
        },
        PlumtreeMessage::Ihave(i) => {
            write_node_id(out, i.sender);
            write_message_id(out, i.message_id);
            write_u16(out, i.round);
            write_bool(out, i.realtime);
            assert(out@ =~= old(out)@ + wire_ihave(*i));
        },
        PlumtreeMessage::Graft(g) => {
            write_node_id(out, g.sender);
            write_optional_message_id(out, g.message_id);
            write_u16(out, g.round);
            assert(out@ =~= old(out)@ + wire_graft(*g));
        },
        PlumtreeMessage::Prune(p) => {
            write_node_id(out, p.sender);
        },
    }
}

pub(crate) fn write_hyparview(out: &mut Vec<u8>, m: &HyparviewMessage)
    requires
        encodable(RpcMessageView::Hyparview(m@)),
    ensures
        final(out)@ == old(out)@ + wire_hyparview(m@),
{
    match m {
        HyparviewMessage::Join { sender } => {
            write_node_id(out, *sender);
        },
        HyparviewMessage::ForwardJoin { sender, new_node, ttl } => {
            write_node_id(out, *sender);
            write_node_id(out, *new_node);
            write_u8(out, *ttl);
            assert(out@ =~= old(out)@ + wire_hyparview(m@));
        },
        HyparviewMessage::Neighbor { sender, high_priority } => {
            write_node_id(out, *sender);
            write_bool(out, *high_priority);
            assert(out@ =~= old(out)@ + wire_hyparview(m@));
        },
        HyparviewMessage::Shuffle { sender, origin, nodes, ttl } => {
            write_node_id(out, *sender);
            write_node_id(out, *origin);
            write_nodes(out, nodes);
            write_u8(out, *ttl);
            assert(out@ =~= old(out)@ + wire_hyparview(m@));
        },
        HyparviewMessage::ShuffleReply { sender, nodes } => {
            write_node_id(out, *sender);
            write_nodes(out, nodes);
            assert(out@ =~= old(out)@ + wire_hyparview(m@));
        },
        HyparviewMessage::Disconnect { sender } => {
            write_node_id(out, *sender);
        },
    }
}

} // verus!
