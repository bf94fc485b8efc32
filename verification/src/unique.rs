//! The unique-id node: a stateless request/response variant that
//! answers every `generate` request with a globally unique id, formed
//! from the node's own id — unique within the cluster — and the
//! freshly advanced `msg_id` counter — unique within the node.

use crate::node::Node;
use crate::protocol::{is_reply_to, Body, Event, HandlingError, Init, Message};
use vstd::prelude::*;

verus! {

/// The payload kinds the unique-id node speaks.
#[derive(Debug, Clone, PartialEq)]
pub enum Payload {
    Generate,
    GenerateOk { guid: String },
}

/// The character for the decimal digit `d`.
pub open spec fn digit_char(d: nat) -> char {
    if d == 0 {
        '0'
    } else if d == 1 {
        '1'
    } else if d == 2 {
        '2'
    } else if d == 3 {
        '3'
    } else if d == 4 {
        '4'
    } else if d == 5 {
        '5'
    } else if d == 6 {
        '6'
    } else if d == 7 {
        '7'
    } else if d == 8 {
        '8'
    } else {
        '9'
    }
}

/// The decimal digits of `n`, most significant first, with no leading
/// zeros.
pub open spec fn decimal(n: nat) -> Seq<char>
    decreases n,
{
    if n < 10 {
        seq![digit_char(n)]
    } else {
        decimal(n / 10).push(digit_char(n % 10))
    }
}

/// The unique id handed out for counter value `id` on node `node`: the
/// node id, a dash, and the counter in decimal.
pub open spec fn guid_of(node: Seq<char>, id: nat) -> Seq<char> {
    node + seq!['-'] + decimal(id)
}

/// The one-character string for the decimal digit `d`.
fn digit_str(d: usize) -> (r: &'static str)
    requires
        d < 10,
    ensures
        r@ =~= seq![digit_char(d as nat)],
{
    proof {
        reveal_strlit("0");
        reveal_strlit("1");
        reveal_strlit("2");
        reveal_strlit("3");
        reveal_strlit("4");
        reveal_strlit("5");
        reveal_strlit("6");
        reveal_strlit("7");
        reveal_strlit("8");
        reveal_strlit("9");
    }
    if d == 0 {
        "0"
    } else if d == 1 {
        "1"
    } else if d == 2 {
        "2"
    } else if d == 3 {
        "3"
    } else if d == 4 {
        "4"
    } else if d == 5 {
        "5"
    } else if d == 6 {
        "6"
    } else if d == 7 {
        "7"
    } else if d == 8 {
        "8"
    } else {
        "9"
    }
}

/// Appends the decimal digits of `n` to `out`.
fn push_decimal(n: usize, out: &mut String)
    ensures
        final(out)@ == old(out)@ + decimal(n as nat),
    decreases n,
{
    if n < 10 {
        out.append(digit_str(n));
    } else {
        proof {
            assert(n / 10 < n && n / 10 >= 1 && n % 10 < 10) by (nonlinear_arith)
                requires
                    n >= 10,
            ;
        }
        push_decimal(n / 10, out);
        out.append(digit_str(n % 10));
        proof {
            assert(old(out)@ + decimal((n / 10) as nat) + seq![digit_char((n % 10) as nat)]
                =~= old(out)@ + decimal(n as nat));
        }
    }
}

/// A unique-id node: its own id and the `msg_id` counter.
#[derive(Debug, Clone, PartialEq)]
pub struct UNode {
    /// This node's id, fixed at construction.
    pub node: String,
    /// The next `msg_id` to stamp on a reply.
    pub id: usize,
}

impl Node<Payload, (), ()> for UNode {
    /// One more stamped reply must fit in the `msg_id` counter.
    open spec fn ready(&self) -> bool {
        self.id < usize::MAX
    }

    /// Construction always succeeds: the node takes its id from the
    /// handshake and starts the counter at 1 (the handshake reply took
    /// 0).
    open spec fn constructed(init: Init, state: (), r: Result<Self, HandlingError>) -> bool {
        match r {
            Ok(n) => n.node == init.node_id && n.id == 1,
            Err(_) => false,
        }
    }

    /// A `generate` request is answered by exactly one stamped,
    /// correlated `generate_ok` reply whose id is the node id, a dash,
    /// and the advanced counter in decimal; everything else is ignored.
    open spec fn stepped(
        pre: Self,
        input: Event<Payload, ()>,
        post: Self,
        r: Result<Vec<Message<Payload>>, HandlingError>,
    ) -> bool {
        match input {
            Event::Message(m) => match m.body.payload {
                Payload::Generate => {
                    &&& (r matches Ok(outs) && outs@.len() == 1
                        && is_reply_to(outs@[0], m, pre.id)
                        && (outs@[0].body.payload matches Payload::GenerateOk { guid }
                            && guid@ == guid_of(pre.node@, (pre.id + 1) as nat)))
                    &&& post.id == pre.id + 1
                    &&& post.node == pre.node
                },
                Payload::GenerateOk { .. } => {
                    &&& (r matches Ok(outs) && outs@.len() == 0)
                    &&& post == pre
                },
            },
            _ => {
                &&& (r matches Ok(outs) && outs@.len() == 0)
                &&& post == pre
            },
        }
    }

    fn is_ready(&self) -> (r: bool) {
        self.id < usize::MAX
    }

    fn from_init(init: Init, _state: ()) -> (r: Result<Self, HandlingError>) {
        Ok(UNode { node: init.node_id, id: 1 })
    }

    fn send(&mut self, input: Event<Payload, ()>) -> (r: Result<
        Vec<Message<Payload>>,
        HandlingError,
    >) {
        match input {
            Event::Message(m) => {
                let Message { src, dst, body } = m;
                let Body { id: mid, in_reply_to: _, payload } = body;
                match payload {
                    Payload::Generate => {
                        let stamp = self.id;
                        self.id = self.id + 1;
                        let mut guid = self.node.clone();
                        proof {
                            reveal_strlit("-");
                        }
                        guid.append("-");
                        push_decimal(self.id, &mut guid);
                        proof {
                            assert(guid@ =~= guid_of(self.node@, self.id as nat));
                        }
                        let reply = Message {
                            src: dst,
                            dst: src,
                            body: Body {
                                id: Some(stamp),
                                in_reply_to: mid,
                                payload: Payload::GenerateOk { guid },
                            },
                        };
                        let mut outs: Vec<Message<Payload>> = Vec::new();
                        outs.push(reply);
                        Ok(outs)
                    },
                    Payload::GenerateOk { .. } => Ok(Vec::new()),
                }
            },
            _ => Ok(Vec::new()),
        }
    }
}

} // verus!
