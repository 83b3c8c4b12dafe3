//! One node and its service, action by action.
use plumcast::broadcast::BroadcastAction;
use plumcast::membership::MembershipAction;
use plumcast::message::{
    GossipMessage, HyparviewMessage, Message, PlumtreeMessage, PruneMessage,
};
use plumcast::node::{Delivery, LocalNodeId, MessageId, Node, NodeAddr, NodeId};
use plumcast::rpc::{self, RpcMessage};
use plumcast::service::{Received, Service};

fn addr(port: u16) -> NodeAddr {
    NodeAddr::V4 { ip: 0x7F00_0001, port }
}

fn peer(port: u16) -> NodeId {
    NodeId { addr: addr(port), local_id: LocalNodeId::new(0) }
}

fn node_at(port: u16) -> (Service, Node) {
    let mut service = Service::new(addr(port));
    let node = Node::new(&mut service, [port as u8; 32]).unwrap();
    (service, node)
}

fn message(origin: NodeId, seqno: u64, payload: &[u8]) -> Message {
    Message { id: MessageId { node_id: origin, seqno }, payload: payload.to_vec() }
}

#[test]
fn new_node_is_registered_and_idle() {
    let mut service = Service::new(addr(1));
    let first = Node::new(&mut service, [1; 32]).unwrap();
    let mut second = Node::new(&mut service, [2; 32]).unwrap();
    assert_eq!(first.id(), NodeId { addr: addr(1), local_id: LocalNodeId::new(0) });
    assert_eq!(second.id(), NodeId { addr: addr(1), local_id: LocalNodeId::new(1) });
    assert!(service.is_registered(&LocalNodeId::new(0)));
    assert!(service.is_registered(&LocalNodeId::new(1)));
    assert!(!service.is_registered(&LocalNodeId::new(2)));
    assert_eq!(service.receive(LocalNodeId::new(1)), Received::Empty);
    assert!(second.active_view().is_empty());
    assert_eq!(second.poll(&mut service), Ok(Delivery::NotReady));
    assert!(service.take_outgoing().is_empty());
    assert_eq!(service.generate_node_id().unwrap().local_id, LocalNodeId::new(2));
}

#[test]
fn membership_send_goes_to_the_transport() {
    let (mut service, mut node) = node_at(1);
    let m = HyparviewMessage::Neighbor { sender: node.id(), high_priority: true };
    let action = MembershipAction::Send { destination: peer(2), message: m.clone() };
    node.handle_hyparview_action(&mut service, action);
    assert_eq!(service.take_outgoing(), vec![rpc::hyparview::cast(peer(2), m)]);
    assert_eq!(node.poll(&mut service), Ok(Delivery::NotReady));
}

#[test]
fn membership_disconnect_changes_nothing() {
    let (mut service, mut node) = node_at(1);
    node.handle_hyparview_action(&mut service, MembershipAction::Disconnect { node: peer(2) });
    assert!(service.take_outgoing().is_empty());
    assert!(node.active_view().is_empty());
    assert_eq!(node.poll(&mut service), Ok(Delivery::NotReady));
    assert!(service.take_outgoing().is_empty());
}

#[test]
fn neighbor_events_reach_the_broadcast_engine() {
    let (mut service, mut node) = node_at(1);
    let id = node.id();
    // Nobody to send to yet.
    node.broadcast(b"alone".to_vec());
    assert_eq!(node.poll(&mut service), Ok(Delivery::Ready(message(id, 0, b"alone"))));
    assert_eq!(node.poll(&mut service), Ok(Delivery::NotReady));
    assert!(service.take_outgoing().is_empty());
    // A new neighbor is told what the node holds and gets the next payload.
    node.handle_hyparview_action(&mut service, MembershipAction::NeighborUp { node: peer(2) });
    assert_eq!(node.poll(&mut service), Ok(Delivery::NotReady));
    let casts = service.take_outgoing();
    assert_eq!(casts.len(), 1);
    assert_eq!(casts[0].procedure, 0x17CD_0001);
    assert_eq!((casts[0].server, casts[0].local_id), (peer(2).addr, peer(2).local_id));
    node.broadcast(b"for two".to_vec());
    assert_eq!(node.poll(&mut service), Ok(Delivery::Ready(message(id, 1, b"for two"))));
    assert_eq!(
        service.take_outgoing(),
        vec![rpc::plumtree::gossip_cast(
            peer(2),
            GossipMessage { sender: id, message: message(id, 1, b"for two"), round: 1 }
        )]
    );
    // A neighbor that went down gets nothing any more.
    node.handle_hyparview_action(&mut service, MembershipAction::NeighborDown { node: peer(2) });
    node.broadcast(b"alone again".to_vec());
    assert_eq!(node.poll(&mut service), Ok(Delivery::Ready(message(id, 2, b"alone again"))));
    assert_eq!(node.poll(&mut service), Ok(Delivery::NotReady));
    assert!(service.take_outgoing().is_empty());
}

#[test]
fn broadcast_actions_go_to_the_transport_or_to_the_application() {
    let (mut service, mut node) = node_at(1);
    let first = message(peer(7), 3, b"first");
    let second = message(peer(8), 0, b"second");
    let prune = PlumtreeMessage::Prune(PruneMessage { sender: node.id() });
    node.handle_plumtree_action(&mut service, BroadcastAction::Deliver { message: first.clone() });
    node.handle_plumtree_action(
        &mut service,
        BroadcastAction::Send { destination: peer(2), message: prune },
    );
    node.handle_plumtree_action(&mut service, BroadcastAction::Deliver { message: second.clone() });
    assert_eq!(
        service.take_outgoing(),
        vec![rpc::plumtree::prune_cast(peer(2), PruneMessage { sender: node.id() })]
    );
    assert_eq!(node.poll(&mut service), Ok(Delivery::Ready(first)));
    assert_eq!(node.poll(&mut service), Ok(Delivery::Ready(second)));
    assert_eq!(node.poll(&mut service), Ok(Delivery::NotReady));
}

#[test]
fn inbox_messages_reach_their_engine() {
    let (mut service, mut node) = node_at(1);
    let id = node.id();
    node.handle_rpc_message(RpcMessage::Hyparview(HyparviewMessage::Join { sender: peer(2) }));
    assert_eq!(node.active_view(), vec![peer(2)]);
    assert_eq!(node.poll(&mut service), Ok(Delivery::NotReady));
    let casts = service.take_outgoing();
    assert_eq!(
        casts,
        vec![rpc::hyparview::cast(
            peer(2),
            HyparviewMessage::Neighbor { sender: id, high_priority: true }
        )]
    );
    let gossip = GossipMessage { sender: peer(2), message: message(peer(3), 5, b"far"), round: 2 };
    node.handle_rpc_message(RpcMessage::Plumtree(PlumtreeMessage::Gossip(gossip)));
    assert_eq!(node.poll(&mut service), Ok(Delivery::Ready(message(peer(3), 5, b"far"))));
    assert!(service.take_outgoing().is_empty());
}

#[test]
fn poll_goes_through_the_inbox_in_order() {
    let (mut service, mut node) = node_at(1);
    let id = node.id();
    let join = |port| RpcMessage::Hyparview(HyparviewMessage::Join { sender: peer(port) });
    service.handle_cast(&addr(2), id.local_id, join(2));
    service.handle_cast(&addr(3), id.local_id, join(3));
    let gossip = |seqno, payload: &[u8]| {
        RpcMessage::Plumtree(PlumtreeMessage::Gossip(GossipMessage {
            sender: peer(2),
            message: message(peer(2), seqno, payload),
            round: 0,
        }))
    };
    // The broadcast engine does not know the sender yet: it will hear of its
    // neighbors when the membership engine is drained, on the next pass.
    service.handle_cast(&addr(2), id.local_id, gossip(0, b"too early"));
    assert_eq!(node.poll(&mut service), Ok(Delivery::NotReady));
    assert_eq!(service.receive(id.local_id), Received::Empty);
    assert_eq!(node.active_view(), vec![peer(2), peer(3)]);
    service.take_outgoing();
    service.handle_cast(&addr(2), id.local_id, gossip(1, b"one"));
    service.handle_cast(&addr(2), id.local_id, gossip(2, b"two"));
    assert_eq!(node.poll(&mut service), Ok(Delivery::Ready(message(peer(2), 1, b"one"))));
    assert_eq!(node.poll(&mut service), Ok(Delivery::Ready(message(peer(2), 2, b"two"))));
    assert_eq!(node.poll(&mut service), Ok(Delivery::NotReady));
    // Both payloads were forwarded to the other neighbor, in their order.
    let forwarded: Vec<u64> = service
        .take_outgoing()
        .into_iter()
        .filter(|c| c.procedure == 0x17CD_0000)
        .map(|c| match c.message {
            RpcMessage::Plumtree(PlumtreeMessage::Gossip(g)) => {
                assert_eq!((c.server, g.sender, g.round), (addr(3), id, 1));
                g.message.id.seqno
            }
            _ => unreachable!(),
        })
        .collect();
    assert_eq!(forwarded, vec![1, 2]);
}

#[test]
fn leave_takes_the_node_out_of_its_service() {
    let (mut service, mut node) = node_at(1);
    let id = node.id();
    node.handle_rpc_message(RpcMessage::Hyparview(HyparviewMessage::Join { sender: peer(2) }));
    node.handle_rpc_message(RpcMessage::Hyparview(HyparviewMessage::Join { sender: peer(3) }));
    assert_eq!(node.poll(&mut service), Ok(Delivery::NotReady));
    service.take_outgoing();
    node.leave(&mut service);
    assert!(!service.is_registered(&id.local_id));
    let bye = |to| rpc::hyparview::cast(to, HyparviewMessage::Disconnect { sender: id });
    assert_eq!(service.take_outgoing(), vec![bye(peer(2)), bye(peer(3))]);
}

#[test]
fn nothing_is_delivered_once_the_node_has_left() {
    let (mut service, mut node) = node_at(1);
    let id = node.id();
    node.handle_rpc_message(RpcMessage::Hyparview(HyparviewMessage::Join { sender: peer(2) }));
    node.broadcast(b"queued".to_vec());
    node.leave(&mut service);
    service.take_outgoing();
    let late = RpcMessage::Plumtree(PlumtreeMessage::Gossip(GossipMessage {
        sender: peer(2),
        message: message(peer(2), 0, b"late"),
        round: 0,
    }));
    service.handle_cast(&addr(2), id.local_id, late);
    assert_eq!(service.receive(id.local_id), Received::Closed);
    assert_eq!(
        service.take_outgoing(),
        vec![rpc::hyparview::cast(peer(2), HyparviewMessage::Disconnect { sender: id })]
    );
}

#[test]
fn a_leaf_with_an_empty_view_leaves_silently() {
    let (mut service, node) = node_at(1);
    let id = node.id();
    node.leave(&mut service);
    assert!(service.take_outgoing().is_empty());
    assert!(!service.is_registered(&id.local_id));
}
