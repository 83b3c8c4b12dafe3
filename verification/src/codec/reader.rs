//! The reader: the executable counterpart of the `parse_..` functions.
use crate::codec::format::{
    parse_addr, parse_bool, parse_forward_join, parse_gossip, parse_graft, parse_ihave,
    parse_local_id, parse_message, parse_message_id, parse_neighbor, parse_node_id,
    parse_node_items, parse_nodes, parse_optional_message_id, parse_payload, parse_rpc,
    parse_shuffle, parse_shuffle_reply, parse_u128, parse_u16, parse_u32, parse_u64, parse_u8,
};
use crate::message::{
    GossipMessage, GraftMessage, HyparviewMessage, IhaveMessage, Message, PlumtreeMessage,
    PruneMessage,
};
use crate::node::{LocalNodeId, MessageId, NodeAddr, NodeId};
use crate::rpc::hyparview::{
    DISCONNECT_ID, FORWARD_JOIN_ID, JOIN_ID, NEIGHBOR_ID, SHUFFLE_ID, SHUFFLE_REPLY_ID,
};
use crate::rpc::plumtree::{GossipCast, GraftCast, IhaveCast, PruneCast};
use crate::rpc::RpcMessage;
use vstd::bytes::{u128_from_le_bytes, u16_from_le_bytes, u32_from_le_bytes, u64_from_le_bytes};
use vstd::prelude::*;
use vstd::slice::{slice_subrange, slice_to_vec};

verus! {

/// Whether the reader's answer `read` for the bytes from `pos` on agrees with
/// what the format says of them: where the format finds a value the reader
/// returns it with the position behind it, and where it finds none the reader
/// returns nothing.
pub open spec fn reads<T>(
    read: Option<(T, usize)>,
    bytes: Seq<u8>,
    pos: usize,
    parsed: Option<(T, Seq<u8>)>,
) -> bool {
    match parsed {
        Some((value, rest)) => read matches Some((v, end)) && v == value && pos <= end
            <= bytes.len() && bytes.skip(end as int) == rest,
        None => read is None,
    }
}

/// Whether the reader's answer `read` for the bytes from `pos` on agrees with
/// what the format says of them, for a value that is compared by its view.
pub open spec fn reads_view<T: View>(
    read: Option<(T, usize)>,
    bytes: Seq<u8>,
    pos: usize,
    parsed: Option<(T::V, Seq<u8>)>,
) -> bool {
    match parsed {
        Some((value, rest)) => read matches Some((v, end)) && v@ == value && pos <= end
            <= bytes.len() && bytes.skip(end as int) == rest,
        None => read is None,
    }
}

/// What was read of a list of nodes, with the nodes `head` before it.
pub open spec fn prepended(head: Seq<NodeId>, parsed: Option<(Seq<NodeId>, Seq<u8>)>) -> Option<
    (Seq<NodeId>, Seq<u8>),
> {
    match parsed {
        Some((nodes, rest)) => Some((head + nodes, rest)),
        None => None,
    }
}

/// Reads a byte at `pos`.
pub(crate) fn read_u8(bytes: &[u8], pos: usize) -> (r: Option<(u8, usize)>)
    requires
        pos <= bytes@.len(),
    ensures
        reads(r, bytes@, pos, parse_u8(bytes@.skip(pos as int))),
{
    if bytes.len() - pos < 1 {
        return None;
    }
    assert(bytes@.skip(pos as int).skip(1) =~= bytes@.skip(pos + 1));
    Some((bytes[pos], pos + 1))
}

/// Reads a flag at `pos`.
pub(crate) fn read_bool(bytes: &[u8], pos: usize) -> (r: Option<(bool, usize)>)
    requires
        pos <= bytes@.len(),
    ensures
        reads(r, bytes@, pos, parse_bool(bytes@.skip(pos as int))),
{
    if bytes.len() - pos < 1 || bytes[pos] > 1 {
        return None;
    }
    assert(bytes@.skip(pos as int).skip(1) =~= bytes@.skip(pos + 1));
    Some((bytes[pos] == 1, pos + 1))
}

/// Reads a 16-bit number at `pos`.
pub(crate) fn read_u16(bytes: &[u8], pos: usize) -> (r: Option<(u16, usize)>)
    requires
        pos <= bytes@.len(),
    ensures
        reads(r, bytes@, pos, parse_u16(bytes@.skip(pos as int))),
{
    if bytes.len() - pos < 2 {
        return None;
    }
    let x = u16_from_le_bytes(slice_subrange(bytes, pos, pos + 2));
    assert(bytes@.subrange(pos as int, pos + 2) =~= bytes@.skip(pos as int).take(2));
    assert(bytes@.skip(pos as int).skip(2) =~= bytes@.skip(pos + 2));
    Some((x, pos + 2))
}

/// Reads a 32-bit number at `pos`.
pub(crate) fn read_u32(bytes: &[u8], pos: usize) -> (r: Option<(u32, usize)>)
    requires
        pos <= bytes@.len(),
    ensures
        reads(r, bytes@, pos, parse_u32(bytes@.skip(pos as int))),
{
    if bytes.len() - pos < 4 {
        return None;
    }
    let x = u32_from_le_bytes(slice_subrange(bytes, pos, pos + 4));
    assert(bytes@.subrange(pos as int, pos + 4) =~= bytes@.skip(pos as int).take(4));
    assert(bytes@.skip(pos as int).skip(4) =~= bytes@.skip(pos + 4));
    Some((x, pos + 4))
}

/// Reads a 64-bit number at `pos`.
pub(crate) fn read_u64(bytes: &[u8], pos: usize) -> (r: Option<(u64, usize)>)
    requires
        pos <= bytes@.len(),
    ensures
        reads(r, bytes@, pos, parse_u64(bytes@.skip(pos as int))),
{
    if bytes.len() - pos < 8 {
        return None;
    }
    let x = u64_from_le_bytes(slice_subrange(bytes, pos, pos + 8));
    assert(bytes@.subrange(pos as int, pos + 8) =~= bytes@.skip(pos as int).take(8));
    assert(bytes@.skip(pos as int).skip(8) =~= bytes@.skip(pos + 8));
    Some((x, pos + 8))
}

/// Reads a 128-bit number at `pos`.
pub(crate) fn read_u128(bytes: &[u8], pos: usize) -> (r: Option<(u128, usize)>)
    requires
        pos <= bytes@.len(),
    ensures
        reads(r, bytes@, pos, parse_u128(bytes@.skip(pos as int))),
{
    if bytes.len() - pos < 16 {
        return None;
    }
    let x = u128_from_le_bytes(slice_subrange(bytes, pos, pos + 16));
    assert(bytes@.subrange(pos as int, pos + 16) =~= bytes@.skip(pos as int).take(16));
    assert(bytes@.skip(pos as int).skip(16) =~= bytes@.skip(pos + 16));
    Some((x, pos + 16))
}

pub(crate) fn read_local_id(bytes: &[u8], pos: usize) -> (r: Option<(LocalNodeId, usize)>)
    requires
        pos <= bytes@.len(),
    ensures
        reads(r, bytes@, pos, parse_local_id(bytes@.skip(pos as int))),
{
    match read_u64(bytes, pos) {
        Some((value, end)) => Some((LocalNodeId::new(value), end)),
        None => None,
    }
}

pub(crate) fn read_addr(bytes: &[u8], pos: usize) -> (r: Option<(NodeAddr, usize)>)
    requires
        pos <= bytes@.len(),
    ensures
        reads(r, bytes@, pos, parse_addr(bytes@.skip(pos as int))),
{
    let (tag, pos0) = match read_u8(bytes, pos) {
        Some(read) => read,
        None => {
            return None;
        },
    };
    if tag == 4 {
        let (ip, pos1) = match read_u32(bytes, pos0) {
            Some(read) => read,
            None => {
                return None;
            },
        };
        let (port, pos2) = match read_u16(bytes, pos1) {
            Some(read) => read,
            None => {
                return None;
            },
        };
        Some((NodeAddr::V4 { ip, port }, pos2))
    } else if tag == 6 {
        let (ip, pos1) = match read_u128(bytes, pos0) {
            Some(read) => read,
            None => {
                return None;
            },
        };
        let (port, pos2) = match read_u16(bytes, pos1) {
            Some(read) => read,
            None => {
                return None;
            },
        };
        let (flowinfo, pos3) = match read_u32(bytes, pos2) {
            Some(read) => read,
            None => {
                return None;
            },
        };
        let (scope_id, pos4) = match read_u32(bytes, pos3) {
            Some(read) => read,
            None => {
                return None;
            },
        };
        Some((NodeAddr::V6 { ip, port, flowinfo, scope_id }, pos4))
    } else {
        None
    }
}

pub(crate) fn read_node_id(bytes: &[u8], pos: usize) -> (r: Option<(NodeId, usize)>)
    requires
        pos <= bytes@.len(),
    ensures
        reads(r, bytes@, pos, parse_node_id(bytes@.skip(pos as int))),
{
    let (addr, pos1) = match read_addr(bytes, pos) {
        Some(read) => read,
        None => {
            return None;
        },
    };
    let (local_id, pos2) = match read_local_id(bytes, pos1) {
        Some(read) => read,
        None => {
            return None;
        },
    };
    Some((NodeId { addr, local_id }, pos2))
}

pub(crate) fn read_message_id(bytes: &[u8], pos: usize) -> (r: Option<(MessageId, usize)>)
    requires
        pos <= bytes@.len(),
    ensures
        reads(r, bytes@, pos, parse_message_id(bytes@.skip(pos as int))),
{
    let (node_id, pos1) = match read_node_id(bytes, pos) {
        Some(read) => read,
        None => {
            return None;
        },
    };
    let (seqno, pos2) = match read_u64(bytes, pos1) {
        Some(read) => read,
        None => {
            return None;
        },
    };
    Some((MessageId { node_id, seqno }, pos2))
}

pub(crate) fn read_optional_message_id(bytes: &[u8], pos: usize) -> (r: Option<(Option<MessageId>, usize)>)
    requires
        pos <= bytes@.len(),
    ensures
        reads(r, bytes@, pos, parse_optional_message_id(bytes@.skip(pos as int))),
{
    let (present, pos1) = match read_bool(bytes, pos) {
        Some(read) => read,
        None => {
            return None;
        },
    };
    if present {
        match read_message_id(bytes, pos1) {
            Some((id, pos2)) => Some((Some(id), pos2)),
            None => None,
        }
    } else {
        Some((None, pos1))
    }
}

pub(crate) fn read_payload(bytes: &[u8], pos: usize) -> (r: Option<(Vec<u8>, usize)>)
    requires
        pos <= bytes@.len(),
    ensures
        reads_view(r, bytes@, pos, parse_payload(bytes@.skip(pos as int))),
{
    let (len, pos1) = match read_u32(bytes, pos) {
        Some(read) => read,
        None => {
            return None;
        },
    };
    if bytes.len() - pos1 < len as usize {
        return None;
    }
    let end = pos1 + len as usize;
    let payload = slice_to_vec(slice_subrange(bytes, pos1, end));
    proof {
        assert(bytes@.subrange(pos1 as int, end as int) =~= bytes@.skip(pos1 as int).take(len as int));
        assert(bytes@.skip(pos1 as int).skip(len as int) =~= bytes@.skip(end as int));
    }
    Some((payload, end))
}

pub(crate) fn read_nodes(bytes: &[u8], pos: usize) -> (r: Option<(Vec<NodeId>, usize)>)
    requires
        pos <= bytes@.len(),
    ensures
        reads_view(r, bytes@, pos, parse_nodes(bytes@.skip(pos as int))),
{
    let (count, start) = match read_u32(bytes, pos) {
        Some(read) => read,
        None => {
            return None;
        },
    };
    let mut nodes: Vec<NodeId> = Vec::new();
    let mut p: usize = start;
    let mut i: u32 = 0;
    let ghost whole = parse_node_items(bytes@.skip(start as int), count as nat);
    while i < count
        invariant
            i <= count,
            pos <= start <= p <= bytes@.len(),
            nodes@.len() == i,
            whole == parse_nodes(bytes@.skip(pos as int)),
            whole == prepended(nodes@, parse_node_items(bytes@.skip(p as int), (count - i) as nat)),
        decreases count - i,
    {
        match read_node_id(bytes, p) {
            None => {
                return None;
            },
            Some((node, end)) => {
                proof {
                    let tail = parse_node_items(bytes@.skip(end as int), (count - i - 1) as nat);
                    if tail is Some {
                        assert(nodes@ + (seq![node] + tail.unwrap().0) =~= nodes@.push(node)
                            + tail.unwrap().0);
                    }
                }
                nodes.push(node);
                p = end;
                i = i + 1;
            },
        }
    }
    proof {
        assert(nodes@ + Seq::<NodeId>::empty() =~= nodes@);
    }
    Some((nodes, p))
}

pub(crate) fn read_message(bytes: &[u8], pos: usize) -> (r: Option<(Message, usize)>)
    requires
        pos <= bytes@.len(),
    ensures
        reads_view(r, bytes@, pos, parse_message(bytes@.skip(pos as int))),
{
    let (id, pos1) = match read_message_id(bytes, pos) {
        Some(read) => read,
        None => {
            return None;
        },
    };
    let (payload, pos2) = match read_payload(bytes, pos1) {
        Some(read) => read,
        None => {
            return None;
        },
    };
    Some((Message { id, payload }, pos2))
}

pub(crate) fn read_gossip(bytes: &[u8], pos: usize) -> (r: Option<(GossipMessage, usize)>)
    requires
        pos <= bytes@.len(),
    ensures
        reads_view(r, bytes@, pos, parse_gossip(bytes@.skip(pos as int))),
{
    let (sender, pos1) = match read_node_id(bytes, pos) {
        Some(read) => read,
        None => {
            return None;
        },
    };
    let (message, pos2) = match read_message(bytes, pos1) {
        Some(read) => read,
        None => {
            return None;
        },
    };
    let (round, pos3) = match read_u16(bytes, pos2) {
        Some(read) => read,
        None => {
            return None;
        },
    };
    Some((GossipMessage { sender, message, round }, pos3))
}

pub(crate) fn read_ihave(bytes: &[u8], pos: usize) -> (r: Option<(IhaveMessage, usize)>)
    requires
        pos <= bytes@.len(),
    ensures
        reads(r, bytes@, pos, parse_ihave(bytes@.skip(pos as int))),
{
    let (sender, pos1) = match read_node_id(bytes, pos) {
        Some(read) => read,
        None => {
            return None;
        },
    };
    let (message_id, pos2) = match read_message_id(bytes, pos1) {
        Some(read) => read,
        None => {
            return None;
        },
    };
    let (round, pos3) = match read_u16(bytes, pos2) {
        Some(read) => read,
        None => {
            return None;
        },
    };
    let (realtime, pos4) = match read_bool(bytes, pos3) {
        Some(read) => read,
        None => {
            return None;
        },
    };
    Some((IhaveMessage { sender, message_id, round, realtime }, pos4))
}

pub(crate) fn read_graft(bytes: &[u8], pos: usize) -> (r: Option<(GraftMessage, usize)>)
    requires
        pos <= bytes@.len(),
    ensures
        reads(r, bytes@, pos, parse_graft(bytes@.skip(pos as int))),
{
    let (sender, pos1) = match read_node_id(bytes, pos) {
        Some(read) => read,
        None => {
            return None;
        },
    };
    let (message_id, pos2) = match read_optional_message_id(bytes, pos1) {
        Some(read) => read,
        None => {
            return None;
        },
    };
    let (round, pos3) = match read_u16(bytes, pos2) {
        Some(read) => read,
        None => {
            return None;
        },
    };
    Some((GraftMessage { sender, message_id, round }, pos3))
}

pub(crate) fn read_forward_join(bytes: &[u8], pos: usize) -> (r: Option<(HyparviewMessage, usize)>)
    requires
        pos <= bytes@.len(),
    ensures
        reads_view(r, bytes@, pos, parse_forward_join(bytes@.skip(pos as int))),
{
    let (sender, pos1) = match read_node_id(bytes, pos) {
        Some(read) => read,
        None => {
            return None;
        },
    };
    let (new_node, pos2) = match read_node_id(bytes, pos1) {
        Some(read) => read,
        None => {
            return None;
        },
    };
    let (ttl, pos3) = match read_u8(bytes, pos2) {
        Some(read) => read,
        None => {
            return None;
        },
    };
    Some((HyparviewMessage::ForwardJoin { sender, new_node, ttl }, pos3))
}

pub(crate) fn read_neighbor(bytes: &[u8], pos: usize) -> (r: Option<(HyparviewMessage, usize)>)
    requires
        pos <= bytes@.len(),
    ensures
        reads_view(r, bytes@, pos, parse_neighbor(bytes@.skip(pos as int))),
{
    let (sender, pos1) = match read_node_id(bytes, pos) {
        Some(read) => read,
        None => {
            return None;
        },
    };
    let (high_priority, pos2) = match read_bool(bytes, pos1) {
        Some(read) => read,
        None => {
            return None;
        },
    };
    Some((HyparviewMessage::Neighbor { sender, high_priority }, pos2))
}

pub(crate) fn read_shuffle(bytes: &[u8], pos: usize) -> (r: Option<(HyparviewMessage, usize)>)
    requires
        pos <= bytes@.len(),
    ensures
        reads_view(r, bytes@, pos, parse_shuffle(bytes@.skip(pos as int))),
{
    let (sender, pos1) = match read_node_id(bytes, pos) {
        Some(read) => read,
        None => {
            return None;
        },
    };
    let (origin, pos2) = match read_node_id(bytes, pos1) {
        Some(read) => read,
        None => {
            return None;
        },
    };
    let (nodes, pos3) = match read_nodes(bytes, pos2) {
        Some(read) => read,
        None => {
            return None;
        },
    };
    let (ttl, pos4) = match read_u8(bytes, pos3) {
        Some(read) => read,
        None => {
            return None;
        },
    };
    Some((HyparviewMessage::Shuffle { sender, origin, nodes, ttl }, pos4))
}

pub(crate) fn read_shuffle_reply(bytes: &[u8], pos: usize) -> (r: Option<(HyparviewMessage, usize)>)
    requires
        pos <= bytes@.len(),
    ensures
        reads_view(r, bytes@, pos, parse_shuffle_reply(bytes@.skip(pos as int))),
{
    let (sender, pos1) = match read_node_id(bytes, pos) {
        Some(read) => read,
        None => {
            return None;
        },
    };
    let (nodes, pos2) = match read_nodes(bytes, pos1) {
        Some(read) => read,
        None => {
            return None;
        },
    };
    Some((HyparviewMessage::ShuffleReply { sender, nodes }, pos2))
}

pub(crate) fn read_rpc(procedure: u32, bytes: &[u8], pos: usize) -> (r: Option<(RpcMessage, usize)>)
    requires
        pos <= bytes@.len(),
    ensures
        reads_view(r, bytes@, pos, parse_rpc(procedure, bytes@.skip(pos as int))),
{
    if procedure == JOIN_ID {
        match read_node_id(bytes, pos) {
            Some((sender, end)) => Some((RpcMessage::Hyparview(HyparviewMessage::Join { sender }), end)),
            None => None,
        }
    } else if procedure == FORWARD_JOIN_ID {
        match read_forward_join(bytes, pos) {
            Some((m, end)) => Some((RpcMessage::Hyparview(m), end)),
            None => None,
        }
    } else if procedure == NEIGHBOR_ID {
        match read_neighbor(bytes, pos) {
            Some((m, end)) => Some((RpcMessage::Hyparview(m), end)),
            None => None,
        }
    } else if procedure == SHUFFLE_ID {
        match read_shuffle(bytes, pos) {
            Some((m, end)) => Some((RpcMessage::Hyparview(m), end)),
            None => None,
        }
    } else if procedure == SHUFFLE_REPLY_ID {
        match read_shuffle_reply(bytes, pos) {
            Some((m, end)) => Some((RpcMessage::Hyparview(m), end)),
            None => None,
        }
    } else if procedure == DISCONNECT_ID {
        match read_node_id(bytes, pos) {
            Some((sender, end)) => Some(
                (RpcMessage::Hyparview(HyparviewMessage::Disconnect { sender }), end),
            ),
            None => None,
        }
    } else if procedure == GossipCast::ID {
        match read_gossip(bytes, pos) {
            Some((m, end)) => Some((RpcMessage::Plumtree(PlumtreeMessage::Gossip(m)), end)),
            None => None,
        }
    } else if procedure == IhaveCast::ID {
        match read_ihave(bytes, pos) {
            Some((m, end)) => Some((RpcMessage::Plumtree(PlumtreeMessage::Ihave(m)), end)),
            None => None,
        }
    } else if procedure == GraftCast::ID {
        match read_graft(bytes, pos) {
            Some((m, end)) => Some((RpcMessage::Plumtree(PlumtreeMessage::Graft(m)), end)),
            None => None,
        }
    } else if procedure == PruneCast::ID {
        match read_node_id(bytes, pos) {
            Some((sender, end)) => Some(
                (RpcMessage::Plumtree(PlumtreeMessage::Prune(PruneMessage { sender })), end),
            ),
            None => None,
        }
    } else {
        None
    }
}

} // verus!
