use rsecho::broadcast::{BroadcastNode, InjectedPayload, Payload};
use rsecho::node::Node;
use rsecho::protocol::{Body, ConfigurationError, Event, HandlingError, Init, Message};
use rsecho::topology::Topology;

fn init_for(node_id: &str, node_ids: &[&str]) -> Init {
    Init {
        node_id: node_id.to_string(),
        node_ids: node_ids.iter().map(|s| s.to_string()).collect(),
    }
}

fn request(src: &str, dst: &str, msg_id: usize, payload: Payload) -> Event<Payload, InjectedPayload> {
    Event::Message(Message {
        src: src.to_string(),
        dst: dst.to_string(),
        body: Body { id: Some(msg_id), in_reply_to: None, payload },
    })
}

fn gossip_from(src: &str, dst: &str, seen: Vec<usize>) -> Event<Payload, InjectedPayload> {
    Event::Message(Message {
        src: src.to_string(),
        dst: dst.to_string(),
        body: Body { id: None, in_reply_to: None, payload: Payload::Gossip { seen } },
    })
}

fn topology_of(entries: &[(&str, &[&str])]) -> Topology {
    Topology {
        entries: entries
            .iter()
            .map(|(k, vs)| (k.to_string(), vs.iter().map(|v| v.to_string()).collect()))
            .collect(),
    }
}

#[test]
fn scenario_broadcast_then_read() {
    let mut node = BroadcastNode::from_init(init_for("n1", &["n1", "n2"]), ()).unwrap();
    let outs = node.send(request("c1", "n1", 1, Payload::Broadcast { message: 5 })).unwrap();
    assert_eq!(outs.len(), 1);
    assert_eq!(outs[0].src, "n1");
    assert_eq!(outs[0].dst, "c1");
    assert_eq!(outs[0].body.in_reply_to, Some(1));
    assert_eq!(outs[0].body.payload, Payload::BroadcastOk);

    let outs = node.send(request("c1", "n1", 2, Payload::Read)).unwrap();
    assert_eq!(outs.len(), 1);
    assert_eq!(outs[0].body.in_reply_to, Some(2));
    assert_eq!(outs[0].body.payload, Payload::ReadOk { messages: vec![5] });
}

#[test]
fn scenario_topology_sets_neighbourhood() {
    let mut node = BroadcastNode::from_init(init_for("n1", &["n1", "n2", "n3"]), ()).unwrap();
    let topology = topology_of(&[("n1", &["n2", "n3"]), ("n2", &["n1"])]);
    let outs = node.send(request("c1", "n1", 1, Payload::Topology { topology })).unwrap();
    assert_eq!(outs.len(), 1);
    assert_eq!(outs[0].body.in_reply_to, Some(1));
    assert_eq!(outs[0].body.payload, Payload::TopologyOk);
    assert_eq!(node.neighbourhood, vec!["n2".to_string(), "n3".to_string()]);
}

#[test]
fn scenario_tick_gossips_to_every_neighbour() {
    let mut node = BroadcastNode::from_init(init_for("n1", &["n1", "n2", "n3"]), ()).unwrap();
    node.send(request("c1", "n1", 1, Payload::Broadcast { message: 5 })).unwrap();
    let topology = topology_of(&[("n1", &["n2", "n3"])]);
    node.send(request("c1", "n1", 2, Payload::Topology { topology })).unwrap();

    let outs = node.send(Event::Injected(InjectedPayload::Gossip)).unwrap();
    assert_eq!(outs.len(), 2);
    assert_eq!(outs[0].src, "n1");
    assert_eq!(outs[0].dst, "n2");
    assert_eq!(outs[0].body.id, None);
    assert_eq!(outs[0].body.in_reply_to, None);
    assert_eq!(outs[0].body.payload, Payload::Gossip { seen: vec![5] });
    assert_eq!(outs[1].dst, "n3");
    assert_eq!(outs[1].body.payload, Payload::Gossip { seen: vec![5] });

    // The estimate is never advanced on send, so the next tick resends
    // the same delta.
    let outs = node.send(Event::Injected(InjectedPayload::Gossip)).unwrap();
    assert_eq!(outs.len(), 2);
    assert_eq!(outs[0].body.payload, Payload::Gossip { seen: vec![5] });
    assert_eq!(outs[1].body.payload, Payload::Gossip { seen: vec![5] });
}

#[test]
fn scenario_gossip_merges_as_a_set() {
    let mut node = BroadcastNode::from_init(init_for("n2", &["n1", "n2"]), ()).unwrap();
    let outs = node.send(gossip_from("n1", "n2", vec![5, 7])).unwrap();
    assert_eq!(outs.len(), 0);
    let outs = node.send(request("c1", "n2", 1, Payload::Broadcast { message: 5 })).unwrap();
    assert_eq!(outs.len(), 1);
    let outs = node.send(request("c1", "n2", 2, Payload::Read)).unwrap();
    assert_eq!(outs[0].body.payload, Payload::ReadOk { messages: vec![5, 7] });
}

#[test]
fn broadcast_twice_is_idempotent() {
    let mut node = BroadcastNode::from_init(init_for("n1", &["n1"]), ()).unwrap();
    node.send(request("c1", "n1", 1, Payload::Broadcast { message: 5 })).unwrap();
    node.send(request("c1", "n1", 2, Payload::Broadcast { message: 5 })).unwrap();
    let outs = node.send(request("c1", "n1", 3, Payload::Read)).unwrap();
    assert_eq!(outs[0].body.payload, Payload::ReadOk { messages: vec![5] });
}

#[test]
fn topology_without_local_entry_is_fatal() {
    let mut node = BroadcastNode::from_init(init_for("n1", &["n1", "n2"]), ()).unwrap();
    let topology = topology_of(&[("n2", &["n1"])]);
    let r = node.send(request("c1", "n1", 1, Payload::Topology { topology }));
    assert_eq!(
        r,
        Err(HandlingError::Configuration(ConfigurationError::MissingTopologyEntry))
    );
    assert!(node.neighbourhood.is_empty());
}

#[test]
fn gossip_never_produces_a_reply() {
    let mut node = BroadcastNode::from_init(init_for("n1", &["n1", "n2"]), ()).unwrap();
    let outs = node.send(gossip_from("n2", "n1", vec![1, 2, 3])).unwrap();
    assert!(outs.is_empty());
}

#[test]
fn tick_with_nothing_to_send_sends_nothing() {
    let mut node = BroadcastNode::from_init(init_for("n1", &["n1", "n2"]), ()).unwrap();
    let topology = topology_of(&[("n1", &["n2"])]);
    node.send(request("c1", "n1", 1, Payload::Topology { topology })).unwrap();
    let outs = node.send(Event::Injected(InjectedPayload::Gossip)).unwrap();
    assert!(outs.is_empty());
}

#[test]
fn end_of_input_is_informational() {
    let mut node = BroadcastNode::from_init(init_for("n1", &["n1"]), ()).unwrap();
    let outs = node.send(Event::EOF).unwrap();
    assert!(outs.is_empty());
}

#[test]
fn replies_are_stamped_sequentially() {
    let mut node = BroadcastNode::from_init(init_for("n1", &["n1"]), ()).unwrap();
    let outs = node.send(request("c1", "n1", 10, Payload::Broadcast { message: 4 })).unwrap();
    assert_eq!(outs[0].body.id, Some(1));
    let outs = node.send(request("c1", "n1", 11, Payload::Read)).unwrap();
    assert_eq!(outs[0].body.id, Some(2));
    // A gossip delivery stamps no reply and so draws no msg_id.
    node.send(gossip_from("n2", "n1", vec![9])).unwrap();
    let outs = node.send(request("c1", "n1", 12, Payload::Read)).unwrap();
    assert_eq!(outs[0].body.id, Some(3));
}

#[test]
fn inbound_acknowledgements_are_ignored() {
    let mut node = BroadcastNode::from_init(init_for("n1", &["n1", "n2"]), ()).unwrap();
    let outs = node.send(request("n2", "n1", 1, Payload::BroadcastOk)).unwrap();
    assert!(outs.is_empty());
    let outs = node.send(request("n2", "n1", 2, Payload::TopologyOk)).unwrap();
    assert!(outs.is_empty());
    let outs = node
        .send(request("n2", "n1", 3, Payload::ReadOk { messages: vec![1] }))
        .unwrap();
    assert!(outs.is_empty());
    let outs = node.send(request("c1", "n1", 4, Payload::Read)).unwrap();
    assert_eq!(outs[0].body.payload, Payload::ReadOk { messages: vec![] });
}

#[test]
fn gossip_carries_values_across_an_edge() {
    // One tick of n1 plus delivery of its sends leaves n2 with a
    // superset of everything n1 knows.
    let mut n1 = BroadcastNode::from_init(init_for("n1", &["n1", "n2"]), ()).unwrap();
    let topology = topology_of(&[("n1", &["n2"]), ("n2", &["n1"])]);
    n1.send(request("c1", "n1", 1, Payload::Topology { topology })).unwrap();
    n1.send(request("c1", "n1", 2, Payload::Broadcast { message: 5 })).unwrap();
    n1.send(request("c1", "n1", 3, Payload::Broadcast { message: 9 })).unwrap();

    let mut n2 = BroadcastNode::from_init(init_for("n2", &["n1", "n2"]), ()).unwrap();
    n2.send(request("c2", "n2", 1, Payload::Broadcast { message: 7 })).unwrap();

    let outs = n1.send(Event::Injected(InjectedPayload::Gossip)).unwrap();
    for m in outs {
        assert_eq!(m.dst, "n2");
        let replies = n2.send(Event::Message(m)).unwrap();
        assert!(replies.is_empty());
    }

    let outs = n2.send(request("c2", "n2", 2, Payload::Read)).unwrap();
    assert_eq!(outs[0].body.payload, Payload::ReadOk { messages: vec![5, 7, 9] });
}

#[test]
fn gossip_delta_excludes_nothing_until_told() {
    // Values arriving by gossip are themselves gossiped onwards.
    let mut node = BroadcastNode::from_init(init_for("n1", &["n1", "n2", "n3"]), ()).unwrap();
    let topology = topology_of(&[("n1", &["n3"])]);
    node.send(request("c1", "n1", 1, Payload::Topology { topology })).unwrap();
    node.send(gossip_from("n2", "n1", vec![7, 2])).unwrap();
    let outs = node.send(Event::Injected(InjectedPayload::Gossip)).unwrap();
    assert_eq!(outs.len(), 1);
    assert_eq!(outs[0].dst, "n3");
    assert_eq!(outs[0].body.payload, Payload::Gossip { seen: vec![2, 7] });
}
