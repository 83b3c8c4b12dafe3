//! Clusters of nodes that talk over an in-memory network.
use plumcast::message::{GossipMessage, Message, PlumtreeMessage};
use plumcast::node::{Delivery, LocalNodeId, MessageId, Node, NodeAddr, NodeId};
use plumcast::rpc::{Cast, RpcMessage};
use plumcast::service::Service;
use plumcast::ErrorKind;

/// One process of a cluster: a service and the nodes that live in it.
struct Process {
    service: Service,
    nodes: Vec<Option<Node>>,
    delivered: Vec<Vec<Message>>,
}

fn loopback(port: u16) -> NodeAddr {
    NodeAddr::V4 { ip: 0x7F00_0001, port }
}

fn seed(n: u8) -> [u8; 32] {
    let mut seed = [0u8; 32];
    seed[0] = n;
    seed[7] = 42;
    seed
}

/// Makes `count` processes with one node each, at ports 3000, 3001, ...
fn processes(count: u16) -> Vec<Process> {
    let mut processes = Vec::new();
    for i in 0..count {
        let mut service = Service::new(loopback(3000 + i));
        let node = Node::new(&mut service, seed(i as u8)).unwrap();
        processes.push(Process { service, nodes: vec![Some(node)], delivered: vec![Vec::new()] });
    }
    processes
}

fn id_of(processes: &[Process], p: usize) -> NodeId {
    processes[p].nodes[0].as_ref().unwrap().id()
}

/// Polls every node until it is not ready, then carries every queued cast to
/// the process that it is addressed to. Returns the casts that were carried.
fn round(processes: &mut [Process]) -> Vec<Cast> {
    for process in processes.iter_mut() {
        for (i, node) in process.nodes.iter_mut().enumerate() {
            if let Some(node) = node {
                while let Delivery::Ready(m) = node.poll(&mut process.service).unwrap() {
                    process.delivered[i].push(m);
                }
            }
        }
    }
    let mut carried = Vec::new();
    for p in 0..processes.len() {
        let from = processes[p].service.addr();
        for cast in processes[p].service.take_outgoing() {
            carried.push(cast.clone());
            for q in 0..processes.len() {
                if processes[q].service.addr() == cast.server {
                    processes[q].service.handle_cast(&from, cast.local_id, cast.message.clone());
                }
            }
        }
    }
    carried
}

/// Runs rounds until one goes by without a cast, at most `limit` rounds.
/// Returns every cast that was carried.
fn settle(processes: &mut [Process], limit: usize) -> Vec<Cast> {
    let mut carried = Vec::new();
    for _ in 0..limit {
        let casts = round(processes);
        if casts.is_empty() {
            return carried;
        }
        carried.extend(casts);
    }
    panic!("the cluster did not settle within {} rounds", limit);
}

fn active_view(processes: &[Process], p: usize) -> Vec<NodeId> {
    processes[p].nodes[0].as_ref().unwrap().active_view()
}

fn join(processes: &mut [Process], p: usize, contact: usize) {
    let contact = id_of(processes, contact);
    processes[p].nodes[0].as_mut().unwrap().join(contact);
}

fn broadcast(processes: &mut [Process], p: usize, payload: &[u8]) {
    processes[p].nodes[0].as_mut().unwrap().broadcast(payload.to_vec());
}

#[test]
fn trivial_join() {
    let mut cluster = processes(2);
    let n1 = id_of(&cluster, 0);
    let n2 = id_of(&cluster, 1);
    join(&mut cluster, 1, 0);
    let mut polls = 0;
    while !(active_view(&cluster, 0).contains(&n2) && active_view(&cluster, 1).contains(&n1)) {
        round(&mut cluster);
        polls += 1;
        assert!(polls <= 100);
    }
    assert_eq!(active_view(&cluster, 0), vec![n2]);
    assert_eq!(active_view(&cluster, 1), vec![n1]);
    // Both broadcast engines have heard of the new neighbor: a payload of
    // either node reaches the other.
    settle(&mut cluster, 100);
    broadcast(&mut cluster, 0, b"from n1");
    broadcast(&mut cluster, 1, b"from n2");
    settle(&mut cluster, 100);
    let payloads = |p: usize| -> Vec<Vec<u8>> {
        cluster[p].delivered[0].iter().map(|m| m.payload.clone()).collect()
    };
    assert!(payloads(1).contains(&b"from n1".to_vec()));
    assert!(payloads(0).contains(&b"from n2".to_vec()));
}

#[test]
fn single_broadcast() {
    let mut cluster = processes(3);
    let n1 = id_of(&cluster, 0);
    join(&mut cluster, 1, 0);
    settle(&mut cluster, 100);
    join(&mut cluster, 2, 1);
    settle(&mut cluster, 100);
    broadcast(&mut cluster, 0, b"hello");
    settle(&mut cluster, 100);
    let expected = Message { id: MessageId { node_id: n1, seqno: 0 }, payload: b"hello".to_vec() };
    assert_eq!(cluster[1].delivered[0], vec![expected.clone()]);
    assert_eq!(cluster[2].delivered[0], vec![expected]);
}

#[test]
fn duplicate_suppression() {
    let mut cluster = processes(3);
    let n1 = id_of(&cluster, 0);
    join(&mut cluster, 1, 0);
    settle(&mut cluster, 100);
    join(&mut cluster, 2, 1);
    settle(&mut cluster, 100);
    broadcast(&mut cluster, 0, b"x");
    broadcast(&mut cluster, 0, b"x");
    settle(&mut cluster, 100);
    let ids: Vec<MessageId> = cluster[2].delivered[0].iter().map(|m| m.id).collect();
    assert_eq!(
        ids,
        vec![MessageId { node_id: n1, seqno: 0 }, MessageId { node_id: n1, seqno: 1 }]
    );
    for m in &cluster[2].delivered[0] {
        assert_eq!(m.payload, b"x".to_vec());
    }
}

#[test]
fn delivered_ids_are_unique_at_every_node() {
    let mut cluster = processes(4);
    for p in 1..4 {
        join(&mut cluster, p, 0);
        settle(&mut cluster, 100);
    }
    for p in 0..4 {
        broadcast(&mut cluster, p, b"a");
        broadcast(&mut cluster, p, b"b");
    }
    settle(&mut cluster, 100);
    for p in 0..4 {
        let ids: Vec<MessageId> = cluster[p].delivered[0].iter().map(|m| m.id).collect();
        assert_eq!(ids.len(), 8);
        for (i, id) in ids.iter().enumerate() {
            assert!(!ids[..i].contains(id));
        }
    }
}

#[test]
fn every_broadcast_reaches_every_node() {
    let mut cluster = processes(5);
    for p in 1..5 {
        join(&mut cluster, p, p - 1);
        settle(&mut cluster, 100);
    }
    let origin = id_of(&cluster, 3);
    broadcast(&mut cluster, 3, b"to all");
    settle(&mut cluster, 100);
    let expected =
        Message { id: MessageId { node_id: origin, seqno: 0 }, payload: b"to all".to_vec() };
    for p in 0..5 {
        assert_eq!(cluster[p].delivered[0], vec![expected.clone()]);
    }
}

#[test]
fn tree_repair() {
    let mut cluster = processes(5);
    for p in 1..5 {
        join(&mut cluster, p, p - 1);
        settle(&mut cluster, 100);
    }
    // The node in the middle of the chain of joins goes away. No payload has
    // travelled yet, so every edge of the membership graph still carries
    // payloads once the survivors have heard of the loss.
    let interior = id_of(&cluster, 2);
    assert_eq!(active_view(&cluster, 2).len(), 3);
    let gone = cluster[2].nodes[0].take().unwrap();
    gone.leave(&mut cluster[2].service);
    settle(&mut cluster, 100);
    for p in [0, 1, 3, 4] {
        assert!(!active_view(&cluster, p).contains(&interior));
    }
    let leaf = id_of(&cluster, 4);
    broadcast(&mut cluster, 4, b"after");
    let mut rounds = 0;
    while [0, 1, 3].iter().any(|p| cluster[*p].delivered[0].is_empty()) {
        round(&mut cluster);
        rounds += 1;
        assert!(rounds <= 10);
    }
    settle(&mut cluster, 100);
    let expected = Message { id: MessageId { node_id: leaf, seqno: 0 }, payload: b"after".to_vec() };
    for p in [0, 1, 3, 4] {
        assert_eq!(cluster[p].delivered[0], vec![expected.clone()]);
    }
}

#[test]
fn graceful_leave() {
    let mut cluster = processes(3);
    join(&mut cluster, 1, 0);
    settle(&mut cluster, 100);
    join(&mut cluster, 2, 1);
    settle(&mut cluster, 100);
    let n3 = id_of(&cluster, 2);
    assert!(active_view(&cluster, 0).contains(&n3) || active_view(&cluster, 1).contains(&n3));
    let node = cluster[2].nodes[0].take().unwrap();
    let peers = node.active_view();
    node.leave(&mut cluster[2].service);
    // One notice for each peer of the active view, in the name of the node.
    let notices = cluster[2].service.take_outgoing();
    assert_eq!(notices.len(), peers.len());
    for (notice, peer) in notices.iter().zip(peers.iter()) {
        assert_eq!(notice.server, peer.addr);
        assert_eq!(notice.local_id, peer.local_id);
        assert_eq!(
            notice.message,
            RpcMessage::Hyparview(plumcast::message::HyparviewMessage::Disconnect { sender: n3 })
        );
    }
    assert!(!cluster[2].service.is_registered(&n3.local_id));
    let from = cluster[2].service.addr();
    for notice in notices {
        for q in 0..2 {
            if cluster[q].service.addr() == notice.server {
                cluster[q].service.handle_cast(&from, notice.local_id, notice.message.clone());
            }
        }
    }
    settle(&mut cluster, 100);
    assert!(!active_view(&cluster, 0).contains(&n3));
    assert!(!active_view(&cluster, 1).contains(&n3));
    broadcast(&mut cluster, 0, b"after the leave");
    let casts = settle(&mut cluster, 100);
    assert!(!casts.is_empty());
    for cast in casts {
        assert_ne!(cast.server, n3.addr);
    }
    assert_eq!(cluster[1].delivered[0].len(), 1);
}

#[test]
fn same_protocol_message_twice_is_delivered_once() {
    let mut cluster = processes(2);
    let n1 = id_of(&cluster, 0);
    let n2 = id_of(&cluster, 1);
    join(&mut cluster, 1, 0);
    settle(&mut cluster, 100);
    let message = Message { id: MessageId { node_id: n2, seqno: 9 }, payload: vec![7, 7] };
    let gossip = RpcMessage::Plumtree(PlumtreeMessage::Gossip(GossipMessage {
        sender: n2,
        message: message.clone(),
        round: 0,
    }));
    let from = cluster[1].service.addr();
    cluster[0].service.handle_cast(&from, n1.local_id, gossip.clone());
    cluster[0].service.handle_cast(&from, n1.local_id, gossip);
    settle(&mut cluster, 100);
    assert_eq!(cluster[0].delivered[0], vec![message]);
}

#[test]
fn double_join_keeps_the_active_view_within_its_bound() {
    let mut cluster = processes(7);
    for p in 1..7 {
        join(&mut cluster, p, 0);
        join(&mut cluster, p, 0);
        for _ in 0..30 {
            round(&mut cluster);
            for q in 0..7 {
                assert!(active_view(&cluster, q).len() <= 4);
            }
        }
    }
    assert_eq!(active_view(&cluster, 0).len(), 4);
    // Joining again, once the node is connected, leaves the view as it is
    // until an answer comes in.
    let view = active_view(&cluster, 1);
    join(&mut cluster, 1, 0);
    join(&mut cluster, 1, 0);
    assert_eq!(active_view(&cluster, 1), view);
    for _ in 0..30 {
        round(&mut cluster);
        for q in 0..7 {
            assert!(active_view(&cluster, q).len() <= 4);
        }
    }
}

#[test]
fn nodes_of_one_process_coexist() {
    let mut service = Service::new(loopback(4000));
    let mut a = Node::new(&mut service, seed(1)).unwrap();
    let mut b = Node::new(&mut service, seed(2)).unwrap();
    assert_eq!(a.id().addr, b.id().addr);
    assert_eq!(a.id().local_id, LocalNodeId::new(0));
    assert_eq!(b.id().local_id, LocalNodeId::new(1));
    let mut process =
        Process { service, nodes: Vec::new(), delivered: vec![Vec::new(), Vec::new()] };
    b.join(a.id());
    let (a_id, b_id) = (a.id(), b.id());
    process.nodes.push(Some(a));
    process.nodes.push(Some(b));
    let mut cluster = vec![process];
    settle(&mut cluster, 100);
    assert_eq!(cluster[0].nodes[0].as_ref().unwrap().active_view(), vec![b_id]);
    assert_eq!(cluster[0].nodes[1].as_ref().unwrap().active_view(), vec![a_id]);
    cluster[0].nodes[1].as_mut().unwrap().broadcast(b"neighbor".to_vec());
    settle(&mut cluster, 100);
    let expected =
        Message { id: MessageId { node_id: b_id, seqno: 0 }, payload: b"neighbor".to_vec() };
    assert_eq!(cluster[0].delivered[0], vec![expected.clone()]);
    assert_eq!(cluster[0].delivered[1], vec![expected]);
}

#[test]
fn poll_of_an_idle_node_is_not_ready() {
    let mut cluster = processes(2);
    join(&mut cluster, 1, 0);
    settle(&mut cluster, 100);
    for _ in 0..3 {
        for p in 0..2 {
            let process = &mut cluster[p];
            let node = process.nodes[0].as_mut().unwrap();
            assert_eq!(node.poll(&mut process.service), Ok(Delivery::NotReady));
            assert!(process.service.take_outgoing().is_empty());
        }
    }
}

#[test]
fn poll_fails_once_the_service_has_forgotten_the_node() {
    let mut service = Service::new(loopback(4100));
    let mut node = Node::new(&mut service, seed(3)).unwrap();
    assert_eq!(node.poll(&mut service), Ok(Delivery::NotReady));
    service.deregister_local_node(node.id().local_id);
    let error = node.poll(&mut service).unwrap_err();
    assert_eq!(error.kind(), ErrorKind::ServiceDown);
    assert_eq!(error.message(), "Service down");
}

#[test]
fn a_local_broadcast_is_handed_out_before_the_inbox_is_closed() {
    let mut service = Service::new(loopback(4101));
    let mut node = Node::new(&mut service, seed(3)).unwrap();
    let id = node.id();
    node.broadcast(vec![1]);
    node.broadcast(vec![2]);
    // The first poll drains the engines and then looks at the inbox.
    service.deregister_local_node(id.local_id);
    assert_eq!(node.poll(&mut service).unwrap_err().kind(), ErrorKind::ServiceDown);
    // What became deliverable on the way is handed out before the inbox is
    // looked at again.
    assert_eq!(
        node.poll(&mut service),
        Ok(Delivery::Ready(Message { id: MessageId { node_id: id, seqno: 0 }, payload: vec![1] }))
    );
    assert_eq!(
        node.poll(&mut service),
        Ok(Delivery::Ready(Message { id: MessageId { node_id: id, seqno: 1 }, payload: vec![2] }))
    );
    assert_eq!(node.poll(&mut service).unwrap_err().kind(), ErrorKind::ServiceDown);
}

#[test]
fn sequence_numbers_increase_by_one() {
    let mut service = Service::new(loopback(4200));
    let mut node = Node::with_initial_seqno(&mut service, seed(4), 40).unwrap();
    let id = node.id();
    for payload in 0..5u8 {
        node.broadcast(vec![payload]);
    }
    let mut seqnos = Vec::new();
    while let Delivery::Ready(m) = node.poll(&mut service).unwrap() {
        assert_eq!(m.id.node_id, id);
        assert_eq!(m.payload, vec![(m.id.seqno - 40) as u8]);
        seqnos.push(m.id.seqno);
    }
    assert_eq!(seqnos, vec![40, 41, 42, 43, 44]);
}

#[test]
fn node_halts_when_its_sequence_numbers_would_wrap() {
    let mut service = Service::new(loopback(4300));
    let mut node = Node::with_initial_seqno(&mut service, seed(5), u64::MAX - 1).unwrap();
    let id = node.id();
    node.broadcast(vec![1]);
    assert_eq!(
        node.poll(&mut service),
        Ok(Delivery::Ready(Message {
            id: MessageId { node_id: id, seqno: u64::MAX - 1 },
            payload: vec![1]
        }))
    );
    assert_eq!(node.poll(&mut service), Ok(Delivery::NotReady));
    node.broadcast(vec![2]);
    let error = node.poll(&mut service).unwrap_err();
    assert_eq!(error.kind(), ErrorKind::SequenceWrap);
    assert_eq!(error.message(), "Sequence numbers exhausted");
    node.broadcast(vec![3]);
    assert_eq!(node.poll(&mut service).unwrap_err().kind(), ErrorKind::SequenceWrap);
}

#[test]
fn join_queues_one_request_for_the_contact() {
    let mut service = Service::new(loopback(4400));
    let mut node = Node::new(&mut service, seed(6)).unwrap();
    let contact = NodeId { addr: loopback(4401), local_id: LocalNodeId::new(17) };
    node.join(contact);
    assert!(node.active_view().is_empty());
    assert_eq!(node.poll(&mut service), Ok(Delivery::NotReady));
    let casts = service.take_outgoing();
    assert_eq!(casts.len(), 1);
    assert_eq!(casts[0].procedure, 0x17CC_0000);
    assert_eq!(casts[0].server, contact.addr);
    assert_eq!(casts[0].local_id, contact.local_id);
    assert_eq!(
        casts[0].message,
        RpcMessage::Hyparview(plumcast::message::HyparviewMessage::Join { sender: node.id() })
    );
}

#[test]
fn service_runs_out_of_local_identifiers() {
    let mut service = Service::starting_at(loopback(4500), u64::MAX - 1);
    let node = Node::new(&mut service, seed(7)).unwrap();
    assert_eq!(node.id().local_id.value(), u64::MAX - 1);
    let error = Node::new(&mut service, seed(8)).unwrap_err();
    assert_eq!(error.kind(), ErrorKind::LocalIdsExhausted);
    assert_eq!(error.message(), "Local node identifiers exhausted");
    assert_eq!(service.generate_node_id(), None);
}
