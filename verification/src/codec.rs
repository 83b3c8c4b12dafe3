//! The wire format of the casts.
//!
//! The payload of a cast is the local identifier of the receiving node
//! followed by the fields of the protocol message, in the order in which the
//! message declares them. Numbers are written in little-endian byte order and
//! take the width of their type; a flag takes one byte that is zero or one; an
//! address starts with a byte that is 4 or 6; a list of nodes and a payload
//! start with their length as a 32-bit number. The procedure of the cast says
//! which kind of message follows, so the message itself carries no tag.
//!
//! `format` states, as functions on byte sequences, how each part of the
//! format is written (`wire_..`) and how it is read (`parse_..`). `laws`
//! proves that reading undoes writing and that what is read was written.
//! `writer` and `reader` hold the executable code to those functions.
use crate::codec::format::{encodable, parse_notification, wire_notification};
use crate::codec::laws::{
    lemma_decode_undoes_encode, lemma_encode_undoes_decode, lemma_procedure_of_view,
};
use crate::codec::reader::{read_local_id, read_rpc};
use crate::codec::writer::{write_hyparview, write_local_id, write_plumtree};
use crate::message::{HyparviewMessage, PlumtreeMessage};
use crate::node::LocalNodeId;
use crate::rpc::{procedure_of, RpcMessage, RpcMessageView};
use vstd::prelude::*;

pub mod format;
pub mod laws;
pub mod reader;
pub mod writer;

verus! {

/// Says whether the lengths in `message` fit the length fields of the format.
pub fn is_encodable(message: &RpcMessage) -> (r: bool)
    ensures
        r == encodable(message@),
{
    match message {
        RpcMessage::Hyparview(HyparviewMessage::Shuffle { nodes, .. }) => nodes.len()
            <= u32::MAX as usize,
        RpcMessage::Hyparview(HyparviewMessage::ShuffleReply { nodes, .. }) => nodes.len()
            <= u32::MAX as usize,
        RpcMessage::Plumtree(PlumtreeMessage::Gossip(m)) => m.message.payload.len()
            <= u32::MAX as usize,
        _ => true,
    }
}

/// Encodes the payload of the cast that takes `message` to the node
/// `local_id` of the receiving process. Returns `None` if a list or a payload
/// in the message is too long for its length field. The bytes that it returns
/// read, as a payload of the procedure of the message, as `local_id` and the
/// content of `message`.
pub fn encode(local_id: LocalNodeId, message: &RpcMessage) -> (r: Option<Vec<u8>>)
    ensures
        r.is_some() <==> encodable(message@),
        r matches Some(bytes) ==> bytes@ == wire_notification(local_id, message@),
        r matches Some(bytes) ==> parse_notification(procedure_of(*message), bytes@) == Some(
            (local_id, message@),
        ),
{
    if !is_encodable(message) {
        return None;
    }
    proof {
        lemma_procedure_of_view(*message);
        lemma_decode_undoes_encode(local_id, message@);
    }
    let mut out: Vec<u8> = Vec::new();
    write_local_id(&mut out, local_id);
    match message {
        RpcMessage::Hyparview(m) => {
            write_hyparview(&mut out, m);
        },
        RpcMessage::Plumtree(m) => {
            write_plumtree(&mut out, m);
        },
    }
    assert(out@ =~= wire_notification(local_id, message@));
    Some(out)
}

/// Whether the decoder's answer `decoded` agrees with what the format finds
/// in the payload of a cast.
pub open spec fn decodes(
    decoded: Option<(LocalNodeId, RpcMessage)>,
    parsed: Option<(LocalNodeId, RpcMessageView)>,
) -> bool {
    match parsed {
        Some((local_id, message)) => decoded matches Some((id, m)) && id == local_id && m@
            == message,
        None => decoded is None,
    }
}

/// Decodes the payload of a cast of the procedure `procedure`: the local
/// identifier of the node that the cast is for, and the protocol message.
/// Returns `None` if `procedure` is none of this library's, if the bytes end
/// before the message does, if a flag or the tag of an address has a value
/// that the format does not know, or if bytes are left over. What it returns
/// is a message of that procedure whose encoding is `bytes`, byte for byte.
pub fn decode(procedure: u32, bytes: &[u8]) -> (r: Option<(LocalNodeId, RpcMessage)>)
    ensures
        decodes(r, parse_notification(procedure, bytes@)),
        r matches Some((local_id, m)) ==> procedure_of(m) == procedure && encodable(m@)
            && wire_notification(local_id, m@) == bytes@,
{
    proof {
        assert(bytes@.skip(0) =~= bytes@);
        lemma_encode_undoes_decode(procedure, bytes@);
    }
    let (local_id, pos1) = match read_local_id(bytes, 0) {
        Some(read) => read,
        None => {
            return None;
        },
    };
    let (message, pos2) = match read_rpc(procedure, bytes, pos1) {
        Some(read) => read,
        None => {
            return None;
        },
    };
    if pos2 != bytes.len() {
        return None;
    }
    proof {
        lemma_procedure_of_view(message);
    }
    Some((local_id, message))
}

} // verus!
