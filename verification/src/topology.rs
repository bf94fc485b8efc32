//! The gossip fanout graph and the per-peer knowledge estimate.
//!
//! A [`Topology`] maps node ids to ordered neighbour lists; a node
//! extracts its own entry and keeps it as its neighbourhood, and a
//! topology lacking an entry for the local node is a fatal configuration
//! error.  [`PeerKnown`] is a node's local, best-effort estimate of the
//! values each cluster member already knows; it is seeded empty for
//! every member and is deliberately never advanced on send, so every
//! gossip round resends the full known delta (favouring delivery over
//! bandwidth).

use crate::message_set::MessageSet;
use vstd::prelude::*;

verus! {

/// A mapping from node id to that node's ordered neighbour list, as
/// carried by a `topology` message.
#[derive(Debug, Clone, PartialEq)]
pub struct Topology {
    /// The entries of the mapping; a key occurring twice counts by its
    /// first occurrence.
    pub entries: Vec<(String, Vec<String>)>,
}

impl Topology {
    /// The neighbour list mapped to `k`, by first occurrence, starting
    /// the search at entry `i`.
    pub open spec fn lookup_from(&self, k: Seq<char>, i: int) -> Option<Vec<String>>
        decreases self.entries@.len() - i,
    {
        if i < 0 || i >= self.entries@.len() {
            None
        } else if self.entries@[i].0@ == k {
            Some(self.entries@[i].1)
        } else {
            self.lookup_from(k, i + 1)
        }
    }

    /// The neighbour list mapped to `k`, or `None` if the mapping has no
    /// entry for `k`.
    pub open spec fn lookup(&self, k: Seq<char>) -> Option<Vec<String>> {
        self.lookup_from(k, 0)
    }

    /// Extracts the neighbour list mapped to `k`, consuming the mapping;
    /// `None` exactly when the mapping has no entry for `k`.
    pub fn take_entry(self, k: &String) -> (r: Option<Vec<String>>)
        ensures
            r == self.lookup(k@),
    {
        let mut this = self;
        let mut i: usize = 0;
        while i < this.entries.len()
            invariant
                0 <= i <= this.entries@.len(),
                this.lookup(k@) == this.lookup_from(k@, i as int),
                this == self,
            decreases this.entries@.len() - i,
        {
            if this.entries[i].0 == *k {
                let pair = this.entries.remove(i);
                return Some(pair.1);
            }
            assert(this.lookup_from(k@, i as int) == this.lookup_from(k@, i + 1));
            i = i + 1;
        }
        None
    }
}

/// A node's local estimate of the values each cluster member already
/// knows.  It is authoritative for nothing: a member without an entry is
/// simply credited with knowing nothing.
#[derive(Debug)]
pub struct PeerKnown {
    peers: Vec<(String, MessageSet)>,
}

impl PeerKnown {
    /// The set of values credited to peer `k`, by first occurrence,
    /// starting the search at entry `i`; a peer without an entry is
    /// credited with the empty set.
    spec fn known_from(&self, k: Seq<char>, i: int) -> Set<usize>
        decreases self.peers@.len() - i,
    {
        if i < 0 || i >= self.peers@.len() {
            Set::empty()
        } else if self.peers@[i].0@ == k {
            self.peers@[i].1@
        } else {
            self.known_from(k, i + 1)
        }
    }

    /// The set of values credited to peer `k`.
    pub closed spec fn known_of(&self, k: Seq<char>) -> Set<usize> {
        self.known_from(k, 0)
    }

    /// Whether the estimate holds an entry for peer `k`.
    pub closed spec fn has_peer(&self, k: Seq<char>) -> bool {
        exists|i: int| 0 <= i < self.peers@.len() && self.peers@[i].0@ == k
    }

    /// Seeds the estimate: exactly the named members get an entry, and
    /// every peer's credited set comes out empty.
    pub fn seeded(ids: &Vec<String>) -> (r: Self)
        ensures
            forall|k: Seq<char>| r.known_of(k) =~= Set::<usize>::empty(),
            forall|k: Seq<char>|
                r.has_peer(k) <==> exists|j: int| 0 <= j < ids@.len() && ids@[j]@ == k,
    {
        let mut peers: Vec<(String, MessageSet)> = Vec::new();
        let mut i: usize = 0;
        while i < ids.len()
            invariant
                0 <= i <= ids@.len(),
                peers@.len() == i,
                forall|p: int| 0 <= p < i ==> peers@[p].0 == ids@[p],
                forall|p: int| 0 <= p < peers@.len() ==> peers@[p].1@ =~= Set::<usize>::empty(),
            decreases ids@.len() - i,
        {
            let id = ids[i].clone();
            peers.push((id, MessageSet::new()));
            i = i + 1;
        }
        let r = PeerKnown { peers };
        proof {
            assert forall|k: Seq<char>| r.known_of(k) =~= Set::<usize>::empty() by {
                lemma_known_from_all_empty(r, k, 0);
            };
            assert forall|k: Seq<char>| r.has_peer(k) implies (exists|j: int|
                0 <= j < ids@.len() && ids@[j]@ == k) by {
                let p = choose|p: int| 0 <= p < r.peers@.len() && r.peers@[p].0@ == k;
                assert(ids@[p]@ == k);
            };
            assert forall|k: Seq<char>| (exists|j: int| 0 <= j < ids@.len() && ids@[j]@ == k)
                implies r.has_peer(k) by {
                let j = choose|j: int| 0 <= j < ids@.len() && ids@[j]@ == k;
                assert(r.peers@[j].0@ == k);
            };
        }
        r
    }

    /// Looks up the set credited to peer `k`; `None` exactly when the
    /// estimate has no entry for `k`, which credits `k` with nothing.
    pub fn get<'a>(&'a self, k: &String) -> (r: Option<&'a MessageSet>)
        ensures
            match r {
                Some(m) => self.has_peer(k@) && m@ == self.known_of(k@),
                None => !self.has_peer(k@) && self.known_of(k@) =~= Set::<usize>::empty(),
            },
    {
        let mut i: usize = 0;
        while i < self.peers.len()
            invariant
                0 <= i <= self.peers@.len(),
                self.known_of(k@) == self.known_from(k@, i as int),
                forall|p: int| 0 <= p < i ==> self.peers@[p].0@ != k@,
            decreases self.peers@.len() - i,
        {
            if self.peers[i].0 == *k {
                return Some(&self.peers[i].1);
            }
            assert(self.known_from(k@, i as int) == self.known_from(k@, i + 1));
            i = i + 1;
        }
        None
    }
}

proof fn lemma_known_from_all_empty(pk: PeerKnown, k: Seq<char>, i: int)
    requires
        forall|p: int| 0 <= p < pk.peers@.len() ==> pk.peers@[p].1@ =~= Set::<usize>::empty(),
        0 <= i,
    ensures
        pk.known_from(k, i) =~= Set::<usize>::empty(),
    decreases pk.peers@.len() - i,
{
    if i < pk.peers@.len() && !(pk.peers@[i].0@ == k) {
        lemma_known_from_all_empty(pk, k, i + 1);
    }
}

} // verus!
