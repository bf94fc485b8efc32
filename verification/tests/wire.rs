use rsecho::echo::{ENode, Payload as EchoPayload};
use rsecho::message_set::MessageSet;
use rsecho::node::Node;
use rsecho::protocol::{handshake, Body, Event, Init, InitPayload, Message, ProtocolError};
use rsecho::unique::{Payload as UniquePayload, UNode};

#[test]
fn handshake_accepts_init() {
    let first = Message {
        src: "c0".to_string(),
        dst: "n1".to_string(),
        body: Body {
            id: Some(7),
            in_reply_to: None,
            payload: InitPayload::Init(Init {
                node_id: "n1".to_string(),
                node_ids: vec!["n1".to_string(), "n2".to_string()],
            }),
        },
    };
    let (init, reply) = handshake(first).unwrap();
    assert_eq!(init.node_id, "n1");
    assert_eq!(init.node_ids, vec!["n1".to_string(), "n2".to_string()]);
    assert_eq!(reply.src, "n1");
    assert_eq!(reply.dst, "c0");
    assert_eq!(reply.body.id, Some(0));
    assert_eq!(reply.body.in_reply_to, Some(7));
    assert_eq!(reply.body.payload, InitPayload::InitOk);
}

#[test]
fn handshake_rejects_anything_else() {
    let first = Message {
        src: "c0".to_string(),
        dst: "n1".to_string(),
        body: Body { id: Some(1), in_reply_to: None, payload: InitPayload::InitOk },
    };
    assert_eq!(handshake(first), Err(ProtocolError::ExpectedInit));
}

#[test]
fn into_reply_correlates_and_advances_counter() {
    let req: Message<u8> = Message {
        src: "a".to_string(),
        dst: "b".to_string(),
        body: Body { id: Some(9), in_reply_to: None, payload: 42 },
    };
    let mut counter: usize = 5;
    let reply = req.into_reply(&mut counter);
    assert_eq!(reply.src, "b");
    assert_eq!(reply.dst, "a");
    assert_eq!(reply.body.id, Some(5));
    assert_eq!(reply.body.in_reply_to, Some(9));
    assert_eq!(reply.body.payload, 42);
    assert_eq!(counter, 6);
}

#[test]
fn into_reply_unstamped_draws_no_id() {
    let req: Message<u8> = Message {
        src: "a".to_string(),
        dst: "b".to_string(),
        body: Body { id: Some(3), in_reply_to: None, payload: 0 },
    };
    let reply = req.into_reply_unstamped();
    assert_eq!(reply.src, "b");
    assert_eq!(reply.dst, "a");
    assert_eq!(reply.body.id, None);
    assert_eq!(reply.body.in_reply_to, Some(3));
}

#[test]
fn message_set_keeps_one_copy_in_order() {
    let mut s = MessageSet::new();
    s.insert(7);
    s.insert(5);
    s.insert(5);
    s.insert(9);
    assert_eq!(s.len(), 3);
    assert!(s.contains(5));
    assert!(!s.contains(6));
    assert_eq!(s.to_vec(), vec![5, 7, 9]);
}

#[test]
fn message_set_difference_is_sorted() {
    let mut s = MessageSet::new();
    s.extend_from(&vec![3, 1, 2]);
    let mut t = MessageSet::new();
    t.insert(2);
    assert_eq!(s.difference_vec(&t), vec![1, 3]);
    assert_eq!(t.difference_vec(&s), Vec::<usize>::new());
}

#[test]
fn echo_node_echoes() {
    let init = Init { node_id: "n1".to_string(), node_ids: vec!["n1".to_string()] };
    let mut node = ENode::from_init(init, ()).unwrap();
    let outs = node
        .send(Event::Message(Message {
            src: "c1".to_string(),
            dst: "n1".to_string(),
            body: Body {
                id: Some(1),
                in_reply_to: None,
                payload: EchoPayload::Echo { echo: "hello".to_string() },
            },
        }))
        .unwrap();
    assert_eq!(outs.len(), 1);
    assert_eq!(outs[0].src, "n1");
    assert_eq!(outs[0].dst, "c1");
    assert_eq!(outs[0].body.id, Some(1));
    assert_eq!(outs[0].body.in_reply_to, Some(1));
    assert_eq!(outs[0].body.payload, EchoPayload::EchoOk { echo: "hello".to_string() });
}

#[test]
fn unique_node_generates_distinct_ids() {
    let init = Init { node_id: "n1".to_string(), node_ids: vec!["n1".to_string()] };
    let mut node = UNode::from_init(init, ()).unwrap();
    let generate = |mid: usize| {
        Event::Message(Message {
            src: "c1".to_string(),
            dst: "n1".to_string(),
            body: Body { id: Some(mid), in_reply_to: None, payload: UniquePayload::Generate },
        })
    };
    let outs = node.send(generate(1)).unwrap();
    assert_eq!(outs[0].body.id, Some(1));
    assert_eq!(
        outs[0].body.payload,
        UniquePayload::GenerateOk { guid: "n1-2".to_string() }
    );
    let outs = node.send(generate(2)).unwrap();
    assert_eq!(
        outs[0].body.payload,
        UniquePayload::GenerateOk { guid: "n1-3".to_string() }
    );
}

#[test]
fn unique_ids_spell_large_counters_in_decimal() {
    let init = Init { node_id: "n".to_string(), node_ids: vec!["n".to_string()] };
    let mut node = UNode::from_init(init, ()).unwrap();
    node.id = 1041;
    let outs = node
        .send(Event::Message(Message {
            src: "c1".to_string(),
            dst: "n".to_string(),
            body: Body { id: Some(1), in_reply_to: None, payload: UniquePayload::Generate },
        }))
        .unwrap();
    assert_eq!(
        outs[0].body.payload,
        UniquePayload::GenerateOk { guid: "n-1042".to_string() }
    );
}
