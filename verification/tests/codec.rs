//! The wire format of the casts.
use plumcast::codec::{decode, encode, is_encodable};
use plumcast::message::{
    GossipMessage, GraftMessage, HyparviewMessage, IhaveMessage, Message, PlumtreeMessage,
    PruneMessage,
};
use plumcast::node::{LocalNodeId, MessageId, NodeAddr, NodeId};
use plumcast::rpc::{self, RpcMessage};

fn v4() -> NodeId {
    NodeId { addr: NodeAddr::V4 { ip: 0x7F00_0001, port: 0x1234 }, local_id: LocalNodeId::new(2) }
}

fn v6() -> NodeId {
    NodeId {
        addr: NodeAddr::V6 {
            ip: 0x0011_2233_4455_6677_8899_AABB_CCDD_EEFF,
            port: 80,
            flowinfo: 0x0102_0304,
            scope_id: 9,
        },
        local_id: LocalNodeId::new(u64::MAX),
    }
}

/// The bytes of `v4()`.
fn v4_bytes() -> Vec<u8> {
    vec![4, 0x01, 0x00, 0x00, 0x7F, 0x34, 0x12, 2, 0, 0, 0, 0, 0, 0, 0]
}

fn every_kind() -> Vec<RpcMessage> {
    let id = MessageId { node_id: v6(), seqno: 0x0102_0304_0506_0708 };
    vec![
        RpcMessage::Hyparview(HyparviewMessage::Join { sender: v4() }),
        RpcMessage::Hyparview(HyparviewMessage::ForwardJoin {
            sender: v4(),
            new_node: v6(),
            ttl: 5,
        }),
        RpcMessage::Hyparview(HyparviewMessage::Neighbor { sender: v6(), high_priority: true }),
        RpcMessage::Hyparview(HyparviewMessage::Neighbor { sender: v6(), high_priority: false }),
        RpcMessage::Hyparview(HyparviewMessage::Shuffle {
            sender: v4(),
            origin: v6(),
            nodes: vec![v4(), v6(), v4()],
            ttl: 255,
        }),
        RpcMessage::Hyparview(HyparviewMessage::Shuffle {
            sender: v4(),
            origin: v4(),
            nodes: vec![],
            ttl: 0,
        }),
        RpcMessage::Hyparview(HyparviewMessage::ShuffleReply { sender: v6(), nodes: vec![v6()] }),
        RpcMessage::Hyparview(HyparviewMessage::Disconnect { sender: v4() }),
        RpcMessage::Plumtree(PlumtreeMessage::Gossip(GossipMessage {
            sender: v4(),
            message: Message { id, payload: b"hello".to_vec() },
            round: 0xBEEF,
        })),
        RpcMessage::Plumtree(PlumtreeMessage::Gossip(GossipMessage {
            sender: v6(),
            message: Message { id, payload: vec![] },
            round: 0,
        })),
        RpcMessage::Plumtree(PlumtreeMessage::Ihave(IhaveMessage {
            sender: v4(),
            message_id: id,
            round: 7,
            realtime: true,
        })),
        RpcMessage::Plumtree(PlumtreeMessage::Graft(GraftMessage {
            sender: v4(),
            message_id: Some(id),
            round: 1,
        })),
        RpcMessage::Plumtree(PlumtreeMessage::Graft(GraftMessage {
            sender: v6(),
            message_id: None,
            round: u16::MAX,
        })),
        RpcMessage::Plumtree(PlumtreeMessage::Prune(PruneMessage { sender: v6() })),
    ]
}

fn procedure(m: &RpcMessage) -> u32 {
    rpc::cast(v4(), m.clone()).procedure
}

#[test]
fn decoding_undoes_encoding() {
    for (i, m) in every_kind().into_iter().enumerate() {
        let local_id = LocalNodeId::new(1000 + i as u64);
        assert!(is_encodable(&m));
        let bytes = encode(local_id, &m).unwrap();
        assert_eq!(decode(procedure(&m), &bytes), Some((local_id, m.clone())));
        // The payload of a cast reads the same every time.
        assert_eq!(encode(local_id, &m).unwrap(), bytes);
    }
}

#[test]
fn prune_on_the_wire() {
    let m = RpcMessage::Plumtree(PlumtreeMessage::Prune(PruneMessage { sender: v4() }));
    let mut expected = vec![0x0D, 0x0C, 0x0B, 0x0A, 0, 0, 0, 0];
    expected.extend(v4_bytes());
    assert_eq!(encode(LocalNodeId::new(0x0A0B_0C0D), &m), Some(expected));
}

#[test]
fn gossip_on_the_wire() {
    let m = RpcMessage::Plumtree(PlumtreeMessage::Gossip(GossipMessage {
        sender: v4(),
        message: Message { id: MessageId { node_id: v4(), seqno: 3 }, payload: vec![0xAA, 0xBB] },
        round: 0x0201,
    }));
    let mut expected = vec![1, 0, 0, 0, 0, 0, 0, 0];
    expected.extend(v4_bytes());
    expected.extend(v4_bytes());
    expected.extend([3, 0, 0, 0, 0, 0, 0, 0]);
    expected.extend([2, 0, 0, 0, 0xAA, 0xBB]);
    expected.extend([0x01, 0x02]);
    assert_eq!(encode(LocalNodeId::new(1), &m), Some(expected));
}

#[test]
fn shuffle_on_the_wire() {
    let m = RpcMessage::Hyparview(HyparviewMessage::Shuffle {
        sender: v4(),
        origin: v4(),
        nodes: vec![v4(), v6()],
        ttl: 4,
    });
    let mut expected = vec![0; 8];
    expected.extend(v4_bytes());
    expected.extend(v4_bytes());
    expected.extend([2, 0, 0, 0]);
    expected.extend(v4_bytes());
    expected.push(6);
    expected.extend([
        0xFF, 0xEE, 0xDD, 0xCC, 0xBB, 0xAA, 0x99, 0x88, 0x77, 0x66, 0x55, 0x44, 0x33, 0x22, 0x11,
        0x00,
    ]);
    expected.extend([80, 0]);
    expected.extend([0x04, 0x03, 0x02, 0x01]);
    expected.extend([9, 0, 0, 0]);
    expected.extend([0xFF; 8]);
    expected.push(4);
    assert_eq!(encode(LocalNodeId::new(0), &m), Some(expected));
}

#[test]
fn graft_and_ihave_on_the_wire() {
    let id = MessageId { node_id: v4(), seqno: 0x0100 };
    let graft = |message_id| {
        RpcMessage::Plumtree(PlumtreeMessage::Graft(GraftMessage {
            sender: v4(),
            message_id,
            round: 2,
        }))
    };
    let mut with_id = vec![5, 0, 0, 0, 0, 0, 0, 0];
    with_id.extend(v4_bytes());
    with_id.push(1);
    with_id.extend(v4_bytes());
    with_id.extend([0, 1, 0, 0, 0, 0, 0, 0]);
    with_id.extend([2, 0]);
    assert_eq!(encode(LocalNodeId::new(5), &graft(Some(id))), Some(with_id));
    let mut without_id = vec![5, 0, 0, 0, 0, 0, 0, 0];
    without_id.extend(v4_bytes());
    without_id.push(0);
    without_id.extend([2, 0]);
    assert_eq!(encode(LocalNodeId::new(5), &graft(None)), Some(without_id));
    let ihave = RpcMessage::Plumtree(PlumtreeMessage::Ihave(IhaveMessage {
        sender: v4(),
        message_id: id,
        round: 0x0300,
        realtime: false,
    }));
    let mut expected = vec![5, 0, 0, 0, 0, 0, 0, 0];
    expected.extend(v4_bytes());
    expected.extend(v4_bytes());
    expected.extend([0, 1, 0, 0, 0, 0, 0, 0]);
    expected.extend([0, 3]);
    expected.push(0);
    assert_eq!(encode(LocalNodeId::new(5), &ihave), Some(expected));
}

#[test]
fn truncated_payloads_are_refused() {
    for m in every_kind() {
        let bytes = encode(LocalNodeId::new(1), &m).unwrap();
        for len in 0..bytes.len() {
            assert_eq!(decode(procedure(&m), &bytes[..len]), None);
        }
    }
}

#[test]
fn leftover_bytes_are_refused() {
    for m in every_kind() {
        let mut bytes = encode(LocalNodeId::new(1), &m).unwrap();
        bytes.push(0);
        assert_eq!(decode(procedure(&m), &bytes), None);
    }
}

#[test]
fn unknown_procedures_are_refused() {
    let m = RpcMessage::Plumtree(PlumtreeMessage::Prune(PruneMessage { sender: v4() }));
    let bytes = encode(LocalNodeId::new(1), &m).unwrap();
    assert!(decode(0x17CD_0003, &bytes).is_some());
    for procedure in [0, 0x17CC_0006, 0x17CD_0004, 0x17CB_FFFF, u32::MAX] {
        assert_eq!(decode(procedure, &bytes), None);
    }
}

#[test]
fn the_procedure_says_how_to_read_the_bytes() {
    // A `Join`, a `Disconnect` and a `PRUNE` hold one node each, so their
    // bytes read as any of the three and as nothing else.
    let sender = v6();
    let bytes =
        encode(LocalNodeId::new(8), &RpcMessage::Hyparview(HyparviewMessage::Join { sender }))
            .unwrap();
    let id = LocalNodeId::new(8);
    assert_eq!(
        decode(0x17CC_0000, &bytes),
        Some((id, RpcMessage::Hyparview(HyparviewMessage::Join { sender })))
    );
    assert_eq!(
        decode(0x17CC_0005, &bytes),
        Some((id, RpcMessage::Hyparview(HyparviewMessage::Disconnect { sender })))
    );
    assert_eq!(
        decode(0x17CD_0003, &bytes),
        Some((id, RpcMessage::Plumtree(PlumtreeMessage::Prune(PruneMessage { sender }))))
    );
    for procedure in [0x17CC_0001, 0x17CC_0002, 0x17CC_0003, 0x17CC_0004] {
        assert_eq!(decode(procedure, &bytes), None);
    }
    for procedure in [0x17CD_0000, 0x17CD_0001, 0x17CD_0002] {
        assert_eq!(decode(procedure, &bytes), None);
    }
}

#[test]
fn unknown_flags_and_address_tags_are_refused() {
    let neighbor =
        RpcMessage::Hyparview(HyparviewMessage::Neighbor { sender: v4(), high_priority: true });
    let mut bytes = encode(LocalNodeId::new(1), &neighbor).unwrap();
    let last = bytes.len() - 1;
    assert_eq!(bytes[last], 1);
    bytes[last] = 2;
    assert_eq!(decode(0x17CC_0002, &bytes), None);
    bytes[last] = 0;
    assert_eq!(
        decode(0x17CC_0002, &bytes),
        Some((
            LocalNodeId::new(1),
            RpcMessage::Hyparview(HyparviewMessage::Neighbor {
                sender: v4(),
                high_priority: false
            })
        ))
    );
    assert_eq!(bytes[8], 4);
    for tag in [0, 5, 7, 255] {
        bytes[8] = tag;
        assert_eq!(decode(0x17CC_0002, &bytes), None);
    }
}

#[test]
fn lengths_beyond_the_bytes_are_refused() {
    let gossip = RpcMessage::Plumtree(PlumtreeMessage::Gossip(GossipMessage {
        sender: v4(),
        message: Message { id: MessageId { node_id: v4(), seqno: 3 }, payload: vec![1, 2, 3] },
        round: 1,
    }));
    let mut bytes = encode(LocalNodeId::new(1), &gossip).unwrap();
    let len_at = 8 + 15 + 15 + 8;
    assert_eq!(&bytes[len_at..len_at + 4], &[3, 0, 0, 0]);
    bytes[len_at] = 6;
    assert_eq!(decode(0x17CD_0000, &bytes), None);
    bytes[len_at] = 3;
    bytes[len_at + 3] = 0xFF;
    assert_eq!(decode(0x17CD_0000, &bytes), None);
    let reply = RpcMessage::Hyparview(HyparviewMessage::ShuffleReply {
        sender: v4(),
        nodes: vec![v4(), v4()],
    });
    let mut bytes = encode(LocalNodeId::new(1), &reply).unwrap();
    let count_at = 8 + 15;
    assert_eq!(&bytes[count_at..count_at + 4], &[2, 0, 0, 0]);
    bytes[count_at] = 3;
    assert_eq!(decode(0x17CC_0004, &bytes), None);
    bytes[count_at] = 1;
    assert_eq!(decode(0x17CC_0004, &bytes), None);
    bytes[count_at] = 0xFF;
    bytes[count_at + 3] = 0xFF;
    assert_eq!(decode(0x17CC_0004, &bytes), None);
}
