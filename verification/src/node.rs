//! The generic node state machine contract.
//!
//! A node is built once from the init handshake data and then handles
//! one event at a time; handling may mutate the node's own state and
//! yields the envelopes to emit, in order.  What construction and each
//! step promise is stated per implementation through the trait's spec
//! functions.  A handling failure is fatal by policy: the caller
//! surfaces it and stops, there is no per-message retry.

use crate::protocol::{Event, HandlingError, Init, Message};
use vstd::prelude::*;

verus! {

/// The pluggable unit that owns per-node state and reacts to events.
///
/// `P` is the node's payload kind, `S` externally supplied
/// configuration, and `IP` the kind of internally injected events (such
/// as timer ticks).
pub trait Node<P, S, IP>: Sized {
    /// Whether the node can accept one more event; concretely, whether a
    /// fresh `msg_id` can still be drawn for a stamped reply.
    spec fn ready(&self) -> bool;

    /// What construction promises of the node built from `init` and
    /// `state`.
    spec fn constructed(init: Init, state: S, r: Result<Self, HandlingError>) -> bool;

    /// How the state after one handled event and the emitted envelopes
    /// relate to the state before it.
    spec fn stepped(
        pre: Self,
        input: Event<P, IP>,
        post: Self,
        r: Result<Vec<Message<P>>, HandlingError>,
    ) -> bool;

    /// Run-time mirror of [`Node::ready`], so an unverified caller can
    /// test it before handing over an event.
    fn is_ready(&self) -> (r: bool)
        ensures
            r == self.ready(),
    ;

    /// Builds the node's initial state from the init handshake data and
    /// the external configuration.
    fn from_init(init: Init, state: S) -> (r: Result<Self, HandlingError>)
        ensures
            Self::constructed(init, state, r),
            r matches Ok(n) ==> n.ready(),
    ;

    /// Handles one event: mutates the node's state and returns the
    /// envelopes to emit, in order.  An error is fatal by policy.
    fn send(&mut self, input: Event<P, IP>) -> (r: Result<Vec<Message<P>>, HandlingError>)
        requires
            old(self).ready(),
        ensures
            Self::stepped(*old(self), input, *final(self), r),
    ;
}

} // verus!
