//! The registry of a process and the routing of incoming casts.
use plumcast::message::{
    GossipMessage, GraftMessage, HyparviewMessage, IhaveMessage, Message, PlumtreeMessage,
    PruneMessage,
};
use plumcast::node::{LocalNodeId, MessageId, NodeAddr, NodeHandle, NodeId};
use plumcast::rpc::{self, Cast, CastOptions, RpcMessage};
use plumcast::service::{Received, Service};

fn addr(port: u16) -> NodeAddr {
    NodeAddr::V4 { ip: 0x0A00_0001, port }
}

fn node(port: u16, local_id: u64) -> NodeId {
    NodeId { addr: addr(port), local_id: LocalNodeId::new(local_id) }
}

fn prune(sender: NodeId) -> RpcMessage {
    RpcMessage::Plumtree(PlumtreeMessage::Prune(PruneMessage { sender }))
}

fn gone_notice(to: NodeId, missing: NodeId) -> Cast {
    Cast {
        procedure: 0x17CC_0005,
        options: CastOptions { priority: 128, max_queue_len: None },
        server: to.addr,
        local_id: to.local_id,
        message: RpcMessage::Hyparview(HyparviewMessage::Disconnect { sender: missing }),
    }
}

#[test]
fn local_node_id_wraps_a_number() {
    assert_eq!(LocalNodeId::new(0).value(), 0);
    assert_eq!(LocalNodeId::new(u64::MAX).value(), u64::MAX);
    assert_eq!(LocalNodeId::new(7), LocalNodeId::new(7));
    assert_ne!(LocalNodeId::new(7), LocalNodeId::new(8));
    assert!(LocalNodeId::new(7) < LocalNodeId::new(8));
}

#[test]
fn node_ids_compare_by_value() {
    assert_eq!(node(1, 2), node(1, 2));
    assert_ne!(node(1, 2), node(1, 3));
    assert_ne!(node(1, 2), node(2, 2));
    let v6 = NodeAddr::V6 { ip: 1, port: 1, flowinfo: 0, scope_id: 0 };
    assert_ne!(v6, NodeAddr::V6 { ip: 1, port: 1, flowinfo: 0, scope_id: 1 });
    assert_ne!(v6, NodeAddr::V4 { ip: 1, port: 1 });
}

#[test]
fn handle_keeps_messages_in_order() {
    let mut handle = NodeHandle::new(LocalNodeId::new(4));
    assert_eq!(handle.local_id(), LocalNodeId::new(4));
    assert_eq!(handle.take_message(), None);
    handle.send_rpc_message(prune(node(1, 1)));
    handle.send_rpc_message(prune(node(1, 2)));
    assert_eq!(handle.local_id(), LocalNodeId::new(4));
    assert_eq!(handle.take_message(), Some(prune(node(1, 1))));
    handle.send_rpc_message(prune(node(1, 3)));
    assert_eq!(handle.take_message(), Some(prune(node(1, 2))));
    assert_eq!(handle.take_message(), Some(prune(node(1, 3))));
    assert_eq!(handle.take_message(), None);
}

#[test]
fn generated_node_ids_are_fresh() {
    let mut service = Service::new(addr(10));
    assert_eq!(service.addr(), addr(10));
    assert_eq!(service.generate_node_id(), Some(node(10, 0)));
    assert_eq!(service.generate_node_id(), Some(node(10, 1)));
    assert_eq!(service.generate_node_id(), Some(node(10, 2)));
    let mut last = Service::starting_at(addr(10), u64::MAX - 1);
    assert_eq!(last.generate_node_id(), Some(node(10, u64::MAX - 1)));
    assert_eq!(last.generate_node_id(), None);
    assert_eq!(last.generate_node_id(), None);
}

#[test]
fn register_and_deregister() {
    let mut service = Service::new(addr(10));
    let id = LocalNodeId::new(3);
    assert!(!service.is_registered(&id));
    assert_eq!(service.receive(id), Received::Closed);
    let mut handle = NodeHandle::new(id);
    handle.send_rpc_message(prune(node(1, 1)));
    service.register_local_node(handle);
    assert!(service.is_registered(&id));
    assert!(!service.is_registered(&LocalNodeId::new(4)));
    assert_eq!(service.receive(id), Received::Message(prune(node(1, 1))));
    assert_eq!(service.receive(id), Received::Empty);
    assert!(service.is_registered(&id));
    service.deregister_local_node(LocalNodeId::new(4));
    assert!(service.is_registered(&id));
    service.deregister_local_node(id);
    assert!(!service.is_registered(&id));
    assert_eq!(service.receive(id), Received::Closed);
    assert!(service.take_outgoing().is_empty());
}

#[test]
fn lookup_of_a_missing_node_disconnects_the_sender() {
    let mut service = Service::new(addr(10));
    service.register_local_node(NodeHandle::new(LocalNodeId::new(1)));
    let sender = node(20, 5);
    assert!(service.get_local_node_or_disconnect(&LocalNodeId::new(1), &sender));
    assert!(service.take_outgoing().is_empty());
    assert!(!service.get_local_node_or_disconnect(&LocalNodeId::new(2), &sender));
    assert_eq!(service.take_outgoing(), vec![gone_notice(sender, node(10, 2))]);
    assert!(service.take_outgoing().is_empty());
    assert!(!service.is_registered(&LocalNodeId::new(2)));
}

#[test]
fn casts_route_by_local_id() {
    let mut service = Service::new(addr(10));
    let (a, b) = (LocalNodeId::new(1), LocalNodeId::new(2));
    service.register_local_node(NodeHandle::new(a));
    service.register_local_node(NodeHandle::new(b));
    let sender = node(20, 0);
    service.handle_cast(&addr(20), a, prune(sender));
    service.handle_cast(&addr(20), b, prune(node(20, 9)));
    service.handle_cast(&addr(20), a, prune(node(20, 1)));
    assert_eq!(service.receive(b), Received::Message(prune(node(20, 9))));
    assert_eq!(service.receive(b), Received::Empty);
    assert_eq!(service.receive(a), Received::Message(prune(sender)));
    assert_eq!(service.receive(a), Received::Message(prune(node(20, 1))));
    assert_eq!(service.receive(a), Received::Empty);
    assert!(service.take_outgoing().is_empty());
}

#[test]
fn cast_with_a_sender_from_another_address_is_dropped() {
    let mut service = Service::new(addr(10));
    let target = LocalNodeId::new(0);
    service.register_local_node(NodeHandle::new(target));
    let declared = node(30, 4);
    let gossip = GossipMessage {
        sender: declared,
        message: Message { id: MessageId { node_id: declared, seqno: 0 }, payload: vec![1, 2, 3] },
        round: 0,
    };
    rpc::plumtree::handle_gossip(&mut service, &addr(31), target, gossip.clone());
    assert_eq!(service.receive(target), Received::Empty);
    assert_eq!(service.take_outgoing(), vec![gone_notice(declared, node(10, 0))]);
    let other_ip = NodeAddr::V4 { ip: 0x0A00_0002, port: 30 };
    rpc::plumtree::handle_gossip(&mut service, &other_ip, target, gossip.clone());
    assert_eq!(service.receive(target), Received::Empty);
    assert_eq!(service.take_outgoing().len(), 1);
    rpc::plumtree::handle_gossip(&mut service, &addr(30), target, gossip.clone());
    assert_eq!(
        service.receive(target),
        Received::Message(RpcMessage::Plumtree(PlumtreeMessage::Gossip(gossip)))
    );
    assert!(service.take_outgoing().is_empty());
}

#[test]
fn misrouted_cast() {
    let mut service = Service::new(addr(10));
    let n1 = LocalNodeId::new(0);
    service.register_local_node(NodeHandle::new(n1));
    let fake = node(66, 6);
    let gossip = GossipMessage {
        sender: fake,
        message: Message { id: MessageId { node_id: fake, seqno: 3 }, payload: b"x".to_vec() },
        round: 1,
    };
    rpc::plumtree::handle_gossip(&mut service, &addr(66), LocalNodeId::new(77), gossip);
    assert_eq!(service.take_outgoing(), vec![gone_notice(fake, node(10, 77))]);
    assert_eq!(service.receive(n1), Received::Empty);
    assert!(!service.is_registered(&LocalNodeId::new(77)));
}

#[test]
fn every_family_of_casts_reaches_the_inbox() {
    let mut service = Service::new(addr(10));
    let target = LocalNodeId::new(0);
    service.register_local_node(NodeHandle::new(target));
    let sender = node(20, 1);
    let id = MessageId { node_id: sender, seqno: 5 };
    let ihave = IhaveMessage { sender, message_id: id, round: 2, realtime: true };
    let graft = GraftMessage { sender, message_id: Some(id), round: 3 };
    let prune_message = PruneMessage { sender };
    let join = HyparviewMessage::Join { sender };
    rpc::plumtree::handle_ihave(&mut service, &addr(20), target, ihave.clone());
    rpc::plumtree::handle_graft(&mut service, &addr(20), target, graft.clone());
    rpc::plumtree::handle_prune(&mut service, &addr(20), target, prune_message.clone());
    rpc::hyparview::handle_cast(&mut service, &addr(20), target, join.clone());
    assert_eq!(
        service.receive(target),
        Received::Message(RpcMessage::Plumtree(PlumtreeMessage::Ihave(ihave)))
    );
    assert_eq!(
        service.receive(target),
        Received::Message(RpcMessage::Plumtree(PlumtreeMessage::Graft(graft)))
    );
    assert_eq!(
        service.receive(target),
        Received::Message(RpcMessage::Plumtree(PlumtreeMessage::Prune(prune_message)))
    );
    assert_eq!(service.receive(target), Received::Message(RpcMessage::Hyparview(join)));
    assert_eq!(service.receive(target), Received::Empty);
}

#[test]
fn sent_messages_queue_in_order() {
    let mut service = Service::new(addr(10));
    let (a, b) = (node(20, 1), node(21, 2));
    service.send_message(a, prune(node(10, 0)));
    service.send_message(b, RpcMessage::Hyparview(HyparviewMessage::Join { sender: node(10, 0) }));
    let casts = service.take_outgoing();
    assert_eq!(casts.len(), 2);
    assert_eq!(casts[0], rpc::cast(a, prune(node(10, 0))));
    assert_eq!(casts[0].procedure, 0x17CD_0003);
    assert_eq!((casts[0].server, casts[0].local_id), (a.addr, a.local_id));
    assert_eq!(casts[1].procedure, 0x17CC_0000);
    assert_eq!((casts[1].server, casts[1].local_id), (b.addr, b.local_id));
    assert!(service.take_outgoing().is_empty());
}
