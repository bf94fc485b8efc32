//! Wire envelopes, request/reply correlation, and the init handshake.
//!
//! An envelope ([`Message`]) carries a source, a destination, and a
//! [`Body`]; the body carries an optional `msg_id`, an optional
//! `in_reply_to`, and a payload that varies by node type.  A reply is a
//! fresh envelope with source and destination swapped and `in_reply_to`
//! set to the request's `msg_id`.

use vstd::prelude::*;

verus! {

/// One wire envelope: a message from `src` to `dst` carrying a body.
#[derive(Debug, Clone, PartialEq)]
pub struct Message<P> {
    /// Node id of the sender.
    pub src: String,
    /// Node id of the addressee (transmitted as `dest` on the wire).
    pub dst: String,
    /// The message body.
    pub body: Body<P>,
}

/// The body of an envelope: correlation ids plus a payload.
#[derive(Debug, Clone, PartialEq)]
pub struct Body<P> {
    /// The `msg_id`: present on requests and on stamped replies.
    pub id: Option<usize>,
    /// Links a reply to the `msg_id` of the request it answers.
    pub in_reply_to: Option<usize>,
    /// The payload, a tagged union that varies by node type.
    pub payload: P,
}

/// One event consumed by a node state machine: a wire message, an
/// internally injected event (such as a timer tick), or end of input.
#[derive(Debug, Clone, PartialEq)]
pub enum Event<P, IP = ()> {
    Message(Message<P>),
    Injected(IP),
    EOF,
}

/// The init handshake data: this node's id and the ids of every cluster
/// member, supplied once before normal operation begins.
#[derive(Debug, Clone, PartialEq)]
pub struct Init {
    pub node_id: String,
    pub node_ids: Vec<String>,
}

/// The payload of the handshake exchange.
#[derive(Debug, Clone, PartialEq)]
pub enum InitPayload {
    Init(Init),
    InitOk,
}

/// The handshake or message ordering was violated by the peer; fatal.
#[derive(Debug, Clone, Copy, PartialEq, Eq, Structural)]
pub enum ProtocolError {
    /// The first inbound message did not carry an `init` payload.
    ExpectedInit,
}

/// The supplied configuration cannot support gossip; fatal.
#[derive(Debug, Clone, Copy, PartialEq, Eq, Structural)]
pub enum ConfigurationError {
    /// A topology mapping held no entry for the local node id.
    MissingTopologyEntry,
}

/// A failure raised while a node handled an event; fatal by policy.
#[derive(Debug, Clone, Copy, PartialEq, Eq, Structural)]
pub enum HandlingError {
    Configuration(ConfigurationError),
}

/// Holds when `reply` answers the request `req`: source and destination
/// are swapped, the fresh `msg_id` is `mid`, and `in_reply_to` carries
/// the request's `msg_id`.
pub open spec fn is_reply_to<P>(reply: Message<P>, req: Message<P>, mid: usize) -> bool {
    &&& reply.src == req.dst
    &&& reply.dst == req.src
    &&& reply.body.id == Some(mid)
    &&& reply.body.in_reply_to == req.body.id
}

impl<P> Message<P> {
    /// Turns a request into a stamped reply: source and destination are
    /// swapped, `in_reply_to` is set to the request's `msg_id`, and a
    /// fresh `msg_id` is drawn from the counter, which advances by one.
    /// The payload is kept for the caller to overwrite.
    pub fn into_reply(self, id: &mut usize) -> (r: Self)
        requires
            *old(id) < usize::MAX,
        ensures
            r.src == self.dst,
            r.dst == self.src,
            r.body.id == Some(*old(id)),
            r.body.in_reply_to == self.body.id,
            r.body.payload == self.body.payload,
            *final(id) == *old(id) + 1,
    {
        let mid: usize = *id;
        *id = *id + 1;
        Message {
            src: self.dst,
            dst: self.src,
            body: Body { id: Some(mid), in_reply_to: self.body.id, payload: self.body.payload },
        }
    }

    /// Turns a request into an unstamped, fire-and-forget reply: source
    /// and destination are swapped, `in_reply_to` is set to the request's
    /// `msg_id`, and no `msg_id` is drawn.  The payload is kept for the
    /// caller to overwrite.
    pub fn into_reply_unstamped(self) -> (r: Self)
        ensures
            r.src == self.dst,
            r.dst == self.src,
            r.body.id is None,
            r.body.in_reply_to == self.body.id,
            r.body.payload == self.body.payload,
    {
        Message {
            src: self.dst,
            dst: self.src,
            body: Body { id: None, in_reply_to: self.body.id, payload: self.body.payload },
        }
    }
}

/// Checks the init handshake: the first inbound message must carry an
/// `init` payload.  On success, hands back the init data together with
/// the `init_ok` reply envelope, stamped with `msg_id` 0 and correlated
/// to the request; any other first message is a fatal protocol error.
pub fn handshake(first: Message<InitPayload>) -> (r: Result<(Init, Message<InitPayload>), ProtocolError>)
    ensures
        match r {
            Ok(p) => {
                &&& first.body.payload == InitPayload::Init(p.0)
                &&& p.1.src == first.dst
                &&& p.1.dst == first.src
                &&& p.1.body.id == Some(0usize)
                &&& p.1.body.in_reply_to == first.body.id
                &&& p.1.body.payload is InitOk
            },
            Err(e) => {
                &&& first.body.payload is InitOk
                &&& e == ProtocolError::ExpectedInit
            },
        },
{
    match first.body.payload {
        InitPayload::Init(init) => {
            let reply = Message {
                src: first.dst,
                dst: first.src,
                body: Body {
                    id: Some(0),
                    in_reply_to: first.body.id,
                    payload: InitPayload::InitOk,
                },
            };
            Ok((init, reply))
        },
        InitPayload::InitOk => Err(ProtocolError::ExpectedInit),
    }
}

} // verus!
