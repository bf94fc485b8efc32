//! What the broadcast engine guarantees across steps.
//!
//! The per-event contract lives in [`BroadcastNode`]'s step relation;
//! the lemmas here combine it across calls: the value set only grows,
//! repeating a broadcast changes nothing, the peer estimate never
//! moves, and a delivered gossip round closes the gap between sender
//! and receiver.  Together with a connected topology and unbounded
//! ticks, the last three give eventual convergence: every value
//! broadcast anywhere eventually reaches every node's set.

use crate::broadcast::{gossip_outputs_match, gossip_plan, BroadcastNode, InjectedPayload, Payload};
use crate::node::Node;
use crate::protocol::{Event, HandlingError, Message};
use vstd::prelude::*;

verus! {

/// The value set never shrinks: whatever event a node handles, every
/// value it knew before, it still knows after.
pub proof fn lemma_step_monotone(
    pre: BroadcastNode,
    input: Event<Payload, InjectedPayload>,
    post: BroadcastNode,
    r: Result<Vec<Message<Payload>>, HandlingError>,
)
    requires
        BroadcastNode::stepped(pre, input, post, r),
    ensures
        pre.messages@.subset_of(post.messages@),
{
}

/// The peer estimate is never advanced: no handled event changes what
/// the node credits its peers with, so every tick resends the full
/// known-minus-credited delta.
pub proof fn lemma_step_keeps_estimate(
    pre: BroadcastNode,
    input: Event<Payload, InjectedPayload>,
    post: BroadcastNode,
    r: Result<Vec<Message<Payload>>, HandlingError>,
)
    requires
        BroadcastNode::stepped(pre, input, post, r),
    ensures
        post.known == pre.known,
{
}

/// Idempotence: a node that handles the same broadcast value twice has,
/// after the second step, exactly the value set it had after the first;
/// the set it hands out is a set, not a multiset.
pub proof fn lemma_broadcast_idempotent(
    pre: BroadcastNode,
    e1: Event<Payload, InjectedPayload>,
    mid: BroadcastNode,
    r1: Result<Vec<Message<Payload>>, HandlingError>,
    e2: Event<Payload, InjectedPayload>,
    post: BroadcastNode,
    r2: Result<Vec<Message<Payload>>, HandlingError>,
    v: usize,
)
    requires
        BroadcastNode::stepped(pre, e1, mid, r1),
        BroadcastNode::stepped(mid, e2, post, r2),
        e1 matches Event::Message(m1) && m1.body.payload == (Payload::Broadcast { message: v }),
        e2 matches Event::Message(m2) && m2.body.payload == (Payload::Broadcast { message: v }),
    ensures
        post.messages@ == mid.messages@,
{
    assert(post.messages@ =~= mid.messages@);
}

/// Every planned gossip send carries exactly the sender's values not
/// credited to its addressee.
pub proof fn lemma_plan_delta(
    msgs: Set<usize>,
    known: crate::topology::PeerKnown,
    nbrs: Seq<String>,
    i: int,
)
    requires
        0 <= i < gossip_plan(msgs, known, nbrs).len(),
    ensures
        gossip_plan(msgs, known, nbrs)[i].1 == msgs.difference(
            known.known_of(gossip_plan(msgs, known, nbrs)[i].0),
        ),
    decreases nbrs.len(),
{
    if nbrs.len() > 0 {
        let pre = gossip_plan(msgs, known, nbrs.drop_last());
        if i < pre.len() {
            lemma_plan_delta(msgs, known, nbrs.drop_last(), i);
        }
    }
}

/// One delivered gossip closes the gap: if a tick of `sender` produced
/// the round `outs` and a receiver handles the send at position `i`,
/// then every value the sender knows is afterwards either in the
/// receiver's set or was already credited to that addressee.
pub proof fn lemma_gossip_delivers(
    sender: BroadcastNode,
    outs: Seq<Message<Payload>>,
    i: int,
    receiver: BroadcastNode,
    e: Event<Payload, InjectedPayload>,
    post: BroadcastNode,
    r: Result<Vec<Message<Payload>>, HandlingError>,
)
    requires
        gossip_outputs_match(sender, outs, sender.neighbourhood@),
        0 <= i < outs.len(),
        e matches Event::Message(m) && m == outs[i],
        BroadcastNode::stepped(receiver, e, post, r),
    ensures
        sender.messages@.subset_of(
            post.messages@ + sender.known.known_of(outs[i].dst@),
        ),
{
    lemma_plan_delta(sender.messages@, sender.known, sender.neighbourhood@, i);
}

/// Convergence along one edge: the engine credits every peer with
/// nothing (construction seeds the estimate empty and no step advances
/// it), so a delivered gossip send makes the receiver's set a superset
/// of the sender's.  Induction along the paths of a connected topology,
/// with ticks supplying a round for every edge, extends this to every
/// node: each broadcast value eventually appears in every set.
pub proof fn lemma_gossip_converges(
    sender: BroadcastNode,
    outs: Seq<Message<Payload>>,
    i: int,
    receiver: BroadcastNode,
    e: Event<Payload, InjectedPayload>,
    post: BroadcastNode,
    r: Result<Vec<Message<Payload>>, HandlingError>,
)
    requires
        gossip_outputs_match(sender, outs, sender.neighbourhood@),
        0 <= i < outs.len(),
        e matches Event::Message(m) && m == outs[i],
        BroadcastNode::stepped(receiver, e, post, r),
        sender.known.known_of(outs[i].dst@) =~= Set::<usize>::empty(),
    ensures
        sender.messages@.subset_of(post.messages@),
{
    lemma_gossip_delivers(sender, outs, i, receiver, e, post, r);
}

} // verus!
