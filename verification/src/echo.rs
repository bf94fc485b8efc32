//! The echo node: a stateless request/response variant that answers
//! every `echo` request with an `echo_ok` carrying the same text.  It
//! keeps nothing but its `msg_id` counter.

use crate::node::Node;
use crate::protocol::{is_reply_to, Body, Event, HandlingError, Init, Message};
use vstd::prelude::*;

verus! {

/// The payload kinds the echo node speaks.
#[derive(Debug, Clone, PartialEq)]
pub enum Payload {
    Echo { echo: String },
    EchoOk { echo: String },
}

/// An echo node: nothing but the `msg_id` counter.
#[derive(Debug, Clone, PartialEq)]
pub struct ENode {
    /// The next `msg_id` to stamp on a reply.
    pub id: usize,
}

impl Node<Payload, (), ()> for ENode {
    /// One more stamped reply must fit in the `msg_id` counter.
    open spec fn ready(&self) -> bool {
        self.id < usize::MAX
    }

    /// Construction always succeeds and starts the counter at 1 (the
    /// handshake reply took 0).
    open spec fn constructed(init: Init, state: (), r: Result<Self, HandlingError>) -> bool {
        match r {
            Ok(n) => n.id == 1,
            Err(_) => false,
        }
    }

    /// An `echo` request is answered by exactly one stamped, correlated
    /// `echo_ok` reply carrying the same text; everything else is
    /// ignored.
    open spec fn stepped(
        pre: Self,
        input: Event<Payload, ()>,
        post: Self,
        r: Result<Vec<Message<Payload>>, HandlingError>,
    ) -> bool {
        match input {
            Event::Message(m) => match m.body.payload {
                Payload::Echo { echo } => {
                    &&& (r matches Ok(outs) && outs@.len() == 1
                        && is_reply_to(outs@[0], m, pre.id)
                        && outs@[0].body.payload == (Payload::EchoOk { echo }))
                    &&& post.id == pre.id + 1
                },
                Payload::EchoOk { .. } => {
                    &&& (r matches Ok(outs) && outs@.len() == 0)
                    &&& post == pre
                },
            },
            _ => {
                &&& (r matches Ok(outs) && outs@.len() == 0)
                &&& post == pre
            },
        }
    }

    fn is_ready(&self) -> (r: bool) {
        self.id < usize::MAX
    }

    fn from_init(_init: Init, _state: ()) -> (r: Result<Self, HandlingError>) {
        Ok(ENode { id: 1 })
    }

    fn send(&mut self, input: Event<Payload, ()>) -> (r: Result<
        Vec<Message<Payload>>,
        HandlingError,
    >) {
        match input {
            Event::Message(m) => {
                let Message { src, dst, body } = m;
                let Body { id: mid, in_reply_to: _, payload } = body;
                match payload {
                    Payload::Echo { echo } => {
                        let reply = Message {
                            src: dst,
                            dst: src,
                            body: Body {
                                id: Some(self.id),
                                in_reply_to: mid,
                                payload: Payload::EchoOk { echo },
                            },
                        };
                        self.id = self.id + 1;
                        let mut outs: Vec<Message<Payload>> = Vec::new();
                        outs.push(reply);
                        Ok(outs)
                    },
                    Payload::EchoOk { .. } => Ok(Vec::new()),
                }
            },
            _ => Ok(Vec::new()),
        }
    }
}

} // verus!
