//! The gossip-based broadcast engine.
//!
//! The engine keeps the set of known broadcast values, the neighbour
//! list extracted from the topology, and a per-peer estimate of what
//! each peer already knows.  It answers `broadcast`, `read` and
//! `topology` requests with stamped, correlated replies; merges
//! incoming `gossip` deltas without replying; and on every timer tick
//! sends each neighbour the non-empty delta of values not yet credited
//! to it.  The estimate is never advanced on send, so deltas are resent
//! until the process ends: redundant traffic is the price paid for
//! delivery.  A later topology message simply replaces the neighbour
//! list; no validation against gossip already in flight is attempted.

use crate::message_set::{sorted_strict, MessageSet};
use crate::node::Node;
use crate::protocol::{
    is_reply_to, Body, ConfigurationError, Event, HandlingError, Init, Message,
};
use crate::topology::{PeerKnown, Topology};
use vstd::prelude::*;

verus! {

/// The payload kinds the broadcast engine speaks.
#[derive(Debug, Clone, PartialEq)]
pub enum Payload {
    Broadcast { message: usize },
    BroadcastOk,
    Read,
    ReadOk { messages: Vec<usize> },
    Topology { topology: Topology },
    TopologyOk,
    Gossip { seen: Vec<usize> },
}

/// The events a background task injects into the engine's stream: a
/// timer tick asking for one gossip round.
#[derive(Debug, Clone, PartialEq)]
pub enum InjectedPayload {
    Gossip,
}

/// A broadcast node: its own id, its neighbour list, the `msg_id`
/// counter, the values it knows, and its estimate of what each peer
/// knows.
#[derive(Debug)]
pub struct BroadcastNode {
    /// This node's id, fixed at construction.
    pub node: String,
    /// The neighbours gossip is sent to, from the topology entry for
    /// this node; empty until a topology message arrives.
    pub neighbourhood: Vec<String>,
    /// The next `msg_id` to stamp on a reply; advances once per stamped
    /// reply and is never reset.
    pub id: usize,
    /// The values this node knows.
    pub messages: MessageSet,
    /// The local, best-effort estimate of what each peer already knows.
    pub known: PeerKnown,
}

/// One planned gossip send per neighbour whose delta is non-empty, in
/// neighbourhood order: the addressee's id paired with the set of
/// values the sender knows but has not credited to it.
pub open spec fn gossip_plan(
    msgs: Set<usize>,
    known: PeerKnown,
    nbrs: Seq<String>,
) -> Seq<(Seq<char>, Set<usize>)>
    decreases nbrs.len(),
{
    if nbrs.len() == 0 {
        Seq::empty()
    } else {
        let pre = gossip_plan(msgs, known, nbrs.drop_last());
        let delta = msgs.difference(known.known_of(nbrs.last()@));
        if delta =~= Set::<usize>::empty() {
            pre
        } else {
            pre.push((nbrs.last()@, delta))
        }
    }
}

/// Holds when `m` is a fire-and-forget gossip envelope from `src` to
/// `dst` whose `seen` list carries exactly the values of `seen`, in
/// increasing order.
pub open spec fn is_gossip_msg(
    m: Message<Payload>,
    src: Seq<char>,
    dst: Seq<char>,
    seen: Set<usize>,
) -> bool {
    &&& m.src@ == src
    &&& m.dst@ == dst
    &&& m.body.id is None
    &&& m.body.in_reply_to is None
    &&& (m.body.payload matches Payload::Gossip { seen: s } && sorted_strict(s@)
        && s@.to_set() == seen)
}

/// Holds when `outs` is exactly the gossip round that a node with
/// `pre`'s values and estimate sends along the neighbour list `nbrs`.
pub open spec fn gossip_outputs_match(
    pre: BroadcastNode,
    outs: Seq<Message<Payload>>,
    nbrs: Seq<String>,
) -> bool {
    let plan = gossip_plan(pre.messages@, pre.known, nbrs);
    &&& outs.len() == plan.len()
    &&& forall|i: int|
        0 <= i < plan.len() ==> is_gossip_msg(outs[i], pre.node@, plan[i].0, plan[i].1)
}

impl Node<Payload, (), InjectedPayload> for BroadcastNode {
    /// One more stamped reply must fit in the `msg_id` counter.
    open spec fn ready(&self) -> bool {
        self.id < usize::MAX
    }

    /// Construction always succeeds: the node takes its id from the
    /// handshake, starts with no neighbours, no values, the counter at
    /// 1 (the handshake reply took 0), and every peer credited with
    /// knowing nothing.
    open spec fn constructed(
        init: Init,
        state: (),
        r: Result<Self, HandlingError>,
    ) -> bool {
        match r {
            Ok(n) => {
                &&& n.node == init.node_id
                &&& n.neighbourhood@ =~= Seq::<String>::empty()
                &&& n.id == 1
                &&& n.messages@ =~= Set::<usize>::empty()
                &&& forall|k: Seq<char>| n.known.known_of(k) =~= Set::<usize>::empty()
                &&& forall|j: int|
                    0 <= j < init.node_ids@.len() ==> n.known.has_peer(init.node_ids@[j]@)
            },
            Err(_) => false,
        }
    }

    /// The whole engine, one event at a time.
    ///
    /// Every request is answered by exactly one stamped, correlated
    /// reply, and the counter advances once per stamp; gossip and ticks
    /// stamp nothing.  The value set never shrinks, and the peer
    /// estimate never changes at all.  The one failure is a topology
    /// message with no entry for this node, which leaves the state as
    /// it was.
    open spec fn stepped(
        pre: Self,
        input: Event<Payload, InjectedPayload>,
        post: Self,
        r: Result<Vec<Message<Payload>>, HandlingError>,
    ) -> bool {
        match input {
            Event::EOF => {
                &&& (r matches Ok(outs) && outs@.len() == 0)
                &&& post == pre
            },
            Event::Injected(_) => {
                &&& (r matches Ok(outs) && gossip_outputs_match(pre, outs@, pre.neighbourhood@))
                &&& post == pre
            },
            Event::Message(m) => match m.body.payload {
                Payload::Broadcast { message } => {
                    &&& (r matches Ok(outs) && outs@.len() == 1
                        && is_reply_to(outs@[0], m, pre.id)
                        && outs@[0].body.payload is BroadcastOk)
                    &&& post.messages@ == pre.messages@.insert(message)
                    &&& post.id == pre.id + 1
                    &&& post.node == pre.node
                    &&& post.neighbourhood == pre.neighbourhood
                    &&& post.known == pre.known
                },
                Payload::Read => {
                    &&& (r matches Ok(outs) && outs@.len() == 1
                        && is_reply_to(outs@[0], m, pre.id)
                        && (outs@[0].body.payload matches Payload::ReadOk { messages }
                            && sorted_strict(messages@)
                            && messages@.to_set() == pre.messages@))
                    &&& post.messages == pre.messages
                    &&& post.id == pre.id + 1
                    &&& post.node == pre.node
                    &&& post.neighbourhood == pre.neighbourhood
                    &&& post.known == pre.known
                },
                Payload::Topology { topology } => match topology.lookup(pre.node@) {
                    Some(nbrs) => {
                        &&& (r matches Ok(outs) && outs@.len() == 1
                            && is_reply_to(outs@[0], m, pre.id)
                            && outs@[0].body.payload is TopologyOk)
                        &&& post.neighbourhood == nbrs
                        &&& post.id == pre.id + 1
                        &&& post.node == pre.node
                        &&& post.messages == pre.messages
                        &&& post.known == pre.known
                    },
                    None => {
                        &&& (r matches Err(e) && e == HandlingError::Configuration(
                            ConfigurationError::MissingTopologyEntry,
                        ))
                        &&& post == pre
                    },
                },
                Payload::Gossip { seen } => {
                    &&& (r matches Ok(outs) && outs@.len() == 0)
                    &&& post.messages@ == pre.messages@ + seen@.to_set()
                    &&& post.id == pre.id
                    &&& post.node == pre.node
                    &&& post.neighbourhood == pre.neighbourhood
                    &&& post.known == pre.known
                },
                Payload::BroadcastOk | Payload::ReadOk { .. } | Payload::TopologyOk => {
                    &&& (r matches Ok(outs) && outs@.len() == 0)
                    &&& post == pre
                },
            },
        }
    }

    fn is_ready(&self) -> (r: bool) {
        self.id < usize::MAX
    }

    fn from_init(init: Init, _state: ()) -> (r: Result<Self, HandlingError>) {
        let known = PeerKnown::seeded(&init.node_ids);
        Ok(BroadcastNode {
            node: init.node_id,
            neighbourhood: Vec::new(),
            id: 1,
            messages: MessageSet::new(),
            known,
        })
    }

    fn send(&mut self, input: Event<Payload, InjectedPayload>) -> (r: Result<
        Vec<Message<Payload>>,
        HandlingError,
    >) {
        match input {
            Event::EOF => Ok(Vec::new()),
            Event::Injected(InjectedPayload::Gossip) => {
                let mut outs: Vec<Message<Payload>> = Vec::new();
                let mut j: usize = 0;
                while j < self.neighbourhood.len()
                    invariant
                        0 <= j <= self.neighbourhood@.len(),
                        *self == *old(self),
                        gossip_outputs_match(*self, outs@, self.neighbourhood@.take(j as int)),
                    decreases self.neighbourhood@.len() - j,
                {
                    let ghost nb = self.neighbourhood@;
                    let ghost plan0 = gossip_plan(self.messages@, self.known, nb.take(j as int));
                    let ghost old_outs = outs@;
                    let n = &self.neighbourhood[j];
                    let ghost dset = self.messages@.difference(self.known.known_of(n@));
                    let delta: Vec<usize> = match self.known.get(n) {
                        Some(kn) => self.messages.difference_vec(kn),
                        None => {
                            let d = self.messages.to_vec();
                            proof {
                                assert(d@.to_set() =~= dset);
                            }
                            d
                        },
                    };
                    assert(delta@.to_set() == dset);
                    if delta.len() > 0 {
                        proof {
                            assert(delta@.contains(delta@[0]));
                            assert(dset.contains(delta@[0]));
                        }
                        let g = Message {
                            src: self.node.clone(),
                            dst: n.clone(),
                            body: Body {
                                id: None,
                                in_reply_to: None,
                                payload: Payload::Gossip { seen: delta },
                            },
                        };
                        outs.push(g);
                        proof {
                            assert(is_gossip_msg(outs@[old_outs.len() as int], self.node@,
                                nb[j as int]@, dset));
                        }
                    } else {
                        proof {
                            assert(delta@.len() == 0);
                            assert(dset =~= Set::<usize>::empty());
                        }
                    }
                    proof {
                        assert(nb.take(j + 1).drop_last() =~= nb.take(j as int));
                        assert(nb.take(j + 1).last() == nb[j as int]);
                        let plan1 = gossip_plan(self.messages@, self.known, nb.take(j + 1));
                        if dset =~= Set::<usize>::empty() {
                            assert(plan1 == plan0);
                        } else {
                            assert(plan1 == plan0.push((nb[j as int]@, dset)));
                        }
                        assert forall|i: int|
                            0 <= i < plan1.len() implies is_gossip_msg(
                            outs@[i],
                            self.node@,
                            plan1[i].0,
                            plan1[i].1,
                        ) by {
                            if i < plan0.len() {
                                assert(outs@[i] == old_outs[i]);
                                assert(plan1[i] == plan0[i]);
                            }
                        };
                        assert(gossip_outputs_match(*self, outs@, nb.take(j + 1)));
                    }
                    j = j + 1;
                }
                proof {
                    assert(self.neighbourhood@.take(self.neighbourhood@.len() as int)
                        =~= self.neighbourhood@);
                }
                Ok(outs)
            },
            Event::Message(m) => {
                let Message { src, dst, body } = m;
                let Body { id: mid, in_reply_to: _, payload } = body;
                match payload {
                    Payload::Broadcast { message } => {
                        self.messages.insert(message);
                        let reply = Message {
                            src: dst,
                            dst: src,
                            body: Body {
                                id: Some(self.id),
                                in_reply_to: mid,
                                payload: Payload::BroadcastOk,
                            },
                        };
                        self.id = self.id + 1;
                        let mut outs: Vec<Message<Payload>> = Vec::new();
                        outs.push(reply);
                        Ok(outs)
                    },
                    Payload::Read => {
                        let l = self.messages.to_vec();
                        let reply = Message {
                            src: dst,
                            dst: src,
                            body: Body {
                                id: Some(self.id),
                                in_reply_to: mid,
                                payload: Payload::ReadOk { messages: l },
                            },
                        };
                        self.id = self.id + 1;
                        let mut outs: Vec<Message<Payload>> = Vec::new();
                        outs.push(reply);
                        Ok(outs)
                    },
                    Payload::Topology { topology } => match topology.take_entry(&self.node) {
                        Some(nbrs) => {
                            self.neighbourhood = nbrs;
                            let reply = Message {
                                src: dst,
                                dst: src,
                                body: Body {
                                    id: Some(self.id),
                                    in_reply_to: mid,
                                    payload: Payload::TopologyOk,
                                },
                            };
                            self.id = self.id + 1;
                            let mut outs: Vec<Message<Payload>> = Vec::new();
                            outs.push(reply);
                            Ok(outs)
                        },
                        None => Err(HandlingError::Configuration(
                            ConfigurationError::MissingTopologyEntry,
                        )),
                    },
                    Payload::Gossip { seen } => {
                        self.messages.extend_from(&seen);
                        Ok(Vec::new())
                    },
                    Payload::BroadcastOk | Payload::ReadOk { .. } | Payload::TopologyOk => {
                        Ok(Vec::new())
                    },
                }
            },
        }
    }
}

} // verus!
