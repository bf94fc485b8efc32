//! The append-only set of broadcast values known to a node.
//!
//! [`MessageSet`] stores its elements as a strictly increasing vector, so
//! the set it denotes determines the one vector that can represent it;
//! its view is the abstract [`Set`] of values.  Values are only ever
//! added, never removed, and inserting a value twice leaves the set
//! unchanged.

use vstd::prelude::*;

verus! {

/// Holds when `s` is strictly increasing.
pub open spec fn sorted_strict(s: Seq<usize>) -> bool {
    forall|i: int, j: int| 0 <= i < j < s.len() ==> s[i] < s[j]
}

/// An append-only set of broadcast values, stored in increasing order.
#[derive(Debug)]
pub struct MessageSet {
    elems: Vec<usize>,
}

proof fn lemma_take_succ_to_set(s: Seq<usize>, i: int)
    requires
        0 <= i < s.len(),
    ensures
        s.take(i + 1).to_set() =~= s.take(i).to_set().insert(s[i]),
{
    let a = s.take(i + 1);
    let b = s.take(i);
    assert forall|x: usize| a.contains(x) implies b.to_set().insert(s[i]).contains(x) by {
        let k = choose|k: int| 0 <= k < a.len() && a[k] == x;
        if k < i {
            assert(b[k] == x);
        } else {
            assert(x == s[i]);
        }
    };
    assert forall|x: usize| b.contains(x) implies a.contains(x) by {
        let k = choose|k: int| 0 <= k < b.len() && b[k] == x;
        assert(a[k] == x);
    };
    assert(a[i] == s[i]);
    assert(a.contains(s[i]));
}

proof fn lemma_push_to_set(s: Seq<usize>, v: usize)
    ensures
        s.push(v).to_set() =~= s.to_set().insert(v),
{
    let a = s.push(v);
    assert forall|x: usize| a.contains(x) implies s.to_set().insert(v).contains(x) by {
        let k = choose|k: int| 0 <= k < a.len() && a[k] == x;
        if k < s.len() {
            assert(s[k] == x);
        } else {
            assert(x == v);
        }
    };
    assert forall|x: usize| s.contains(x) implies a.contains(x) by {
        let k = choose|k: int| 0 <= k < s.len() && s[k] == x;
        assert(a[k] == x);
    };
    assert(a[s.len() as int] == v);
    assert(a.contains(v));
}

impl View for MessageSet {
    type V = Set<usize>;

    closed spec fn view(&self) -> Set<usize> {
        self.elems@.to_set()
    }
}

impl MessageSet {
    #[verifier::type_invariant]
    spec fn inv(&self) -> bool {
        sorted_strict(self.elems@)
    }

    /// The empty set.
    pub fn new() -> (r: Self)
        ensures
            r@ == Set::<usize>::empty(),
    {
        let r = MessageSet { elems: Vec::new() };
        proof {
            assert(r.elems@.to_set() =~= Set::<usize>::empty());
        }
        r
    }

    /// Whether `v` is in the set.
    pub fn contains(&self, v: usize) -> (r: bool)
        ensures
            r == self@.contains(v),
    {
        let mut i: usize = 0;
        while i < self.elems.len()
            invariant
                0 <= i <= self.elems@.len(),
                forall|k: int| 0 <= k < i ==> self.elems@[k] != v,
            decreases self.elems@.len() - i,
        {
            if self.elems[i] == v {
                assert(self.elems@.contains(v));
                return true;
            }
            i = i + 1;
        }
        assert(!self.elems@.contains(v));
        false
    }

    /// Adds `v` to the set; a value already present is left alone.
    pub fn insert(&mut self, v: usize)
        ensures
            final(self)@ == old(self)@.insert(v),
    {
        proof {
            use_type_invariant(&*self);
        }
        let ghost so = self.elems@;
        let mut i: usize = 0;
        while i < self.elems.len() && self.elems[i] < v
            invariant
                0 <= i <= self.elems@.len(),
                self.elems@ == so,
                forall|k: int| 0 <= k < i ==> self.elems@[k] < v,
            decreases self.elems@.len() - i,
        {
            i = i + 1;
        }
        if i < self.elems.len() && self.elems[i] == v {
            proof {
                assert(self.elems@.contains(v));
                assert(self@ =~= old(self)@.insert(v));
            }
            return;
        }
        proof {
            assert(sorted_strict(so));
            assert(i < so.len() ==> so[i as int] > v);
        }
        let mut tmp: Vec<usize> = Vec::new();
        core::mem::swap(&mut tmp, &mut self.elems);
        tmp.insert(i, v);
        proof {
            let sn = tmp@;
            assert(sn == so.insert(i as int, v));
            assert forall|p: int, q: int| 0 <= p < q < sn.len() implies sn[p] < sn[q] by {
                if q < i {
                    assert(sn[p] == so[p] && sn[q] == so[q]);
                } else if p > i {
                    assert(sn[p] == so[p - 1] && sn[q] == so[q - 1]);
                } else if p < i && q == i {
                    assert(sn[p] == so[p] && sn[q] == v);
                } else if p < i && q > i {
                    assert(sn[p] == so[p] && sn[q] == so[q - 1]);
                } else if p == i {
                    assert(sn[p] == v && sn[q] == so[q - 1] && q - 1 >= i);
                }
            };
            assert(sorted_strict(sn));
        }
        self.elems = tmp;
        proof {
            let sn = self.elems@;
            assert forall|x: usize| sn.contains(x) implies (so.contains(x) || x == v) by {
                let k = choose|k: int| 0 <= k < sn.len() && sn[k] == x;
                if k < i {
                    assert(so[k] == x);
                } else if k > i {
                    assert(so[k - 1] == x);
                }
            };
            assert forall|x: usize| so.contains(x) implies sn.contains(x) by {
                let k = choose|k: int| 0 <= k < so.len() && so[k] == x;
                if k < i {
                    assert(sn[k] == x);
                } else {
                    assert(sn[k + 1] == x);
                }
            };
            assert(sn[i as int] == v);
            assert(sn.contains(v));
            assert(self@ =~= old(self)@.insert(v));
        }
    }

    /// Adds every value of `vs` to the set: afterwards the set is the
    /// union of its old value with the values of `vs`.
    pub fn extend_from(&mut self, vs: &Vec<usize>)
        ensures
            final(self)@ == old(self)@ + vs@.to_set(),
    {
        let mut i: usize = 0;
        while i < vs.len()
            invariant
                0 <= i <= vs@.len(),
                self@ == old(self)@ + vs@.take(i as int).to_set(),
            decreases vs@.len() - i,
        {
            self.insert(vs[i]);
            proof {
                lemma_take_succ_to_set(vs@, i as int);
                assert(self@ =~= old(self)@ + vs@.take(i + 1).to_set());
            }
            i = i + 1;
        }
        proof {
            assert(vs@.take(vs@.len() as int) =~= vs@);
            assert(self@ =~= old(self)@ + vs@.to_set());
        }
    }

    /// The elements of the set, in increasing order.
    pub fn to_vec(&self) -> (r: Vec<usize>)
        ensures
            sorted_strict(r@),
            r@.to_set() == self@,
    {
        proof {
            use_type_invariant(&*self);
        }
        let mut r: Vec<usize> = Vec::new();
        let mut i: usize = 0;
        while i < self.elems.len()
            invariant
                0 <= i <= self.elems@.len(),
                r@ == self.elems@.take(i as int),
            decreases self.elems@.len() - i,
        {
            r.push(self.elems[i]);
            proof {
                assert(r@ =~= self.elems@.take(i + 1));
            }
            i = i + 1;
        }
        proof {
            assert(r@ =~= self.elems@);
            assert(r@.to_set() =~= self@);
        }
        r
    }

    /// The elements of the set that are not in `other`, in increasing
    /// order: the delta that a gossip round sends to a peer credited
    /// with `other`.
    pub fn difference_vec(&self, other: &MessageSet) -> (r: Vec<usize>)
        ensures
            sorted_strict(r@),
            r@.to_set() == self@.difference(other@),
    {
        proof {
            use_type_invariant(&*self);
        }
        let mut r: Vec<usize> = Vec::new();
        let mut i: usize = 0;
        while i < self.elems.len()
            invariant
                0 <= i <= self.elems@.len(),
                sorted_strict(self.elems@),
                sorted_strict(r@),
                r@.to_set() == self.elems@.take(i as int).to_set().difference(other@),
                forall|p: int| 0 <= p < r@.len() ==> i > 0 && r@[p] <= self.elems@[i - 1],
            decreases self.elems@.len() - i,
        {
            let x = self.elems[i];
            let ghost r_old = r@;
            if !other.contains(x) {
                proof {
                    assert forall|p: int| 0 <= p < r@.len() implies r@[p] < x by {
                        assert(r@[p] <= self.elems@[i - 1]);
                        assert(self.elems@[i - 1] < self.elems@[i as int]);
                    };
                }
                r.push(x);
                proof {
                    lemma_push_to_set(r_old, x);
                    assert(sorted_strict(r@));
                }
            }
            proof {
                lemma_take_succ_to_set(self.elems@, i as int);
                assert(r@.to_set() =~= self.elems@.take(i + 1).to_set().difference(other@));
            }
            i = i + 1;
        }
        proof {
            assert(self.elems@.take(self.elems@.len() as int) =~= self.elems@);
            assert(r@.to_set() =~= self@.difference(other@));
        }
        r
    }

    /// The number of values in the set.
    pub fn len(&self) -> (r: usize)
        ensures
            r == self@.len(),
    {
        proof {
            use_type_invariant(&*self);
            assert(self.elems@.no_duplicates());
            self.elems@.unique_seq_to_set();
        }
        self.elems.len()
    }
}

} // verus!
