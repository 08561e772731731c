use std::collections::HashMap;
use vstd::prelude::*;

use crate::buffer::append_all;
use crate::fingerprint::{Element, HashKey};
use crate::range::{spans_overlap, SliceRange};

verus! {

broadcast use vstd::std_specs::hash::group_hash_axioms;

/// An arena of elements in which each distinct sequence is stored once.
#[derive(Clone)]
pub struct Interner<T> {
    buffer: Vec<T>,
    map: HashMap<u64, SliceRange<T>>,
}

impl<T: Element> Interner<T> {
    /// The elements of the arena.
    pub closed spec fn elems(&self) -> Seq<T> {
        self.buffer@
    }

    /// The recorded handles, by fingerprint.
    pub closed spec fn entries(&self) -> Map<u64, SliceRange<T>> {
        self.map@
    }

    /// The elements that the span `r` covers.
    pub open spec fn values_at(&self, r: SliceRange<T>) -> Seq<T> {
        self.elems().subrange(r.start as int, r.end as int)
    }

    /// `r` was handed out by this arena.
    pub open spec fn issued(&self, r: SliceRange<T>) -> bool {
        exists|k: u64| #[trigger] self.entries().contains_key(k) && self.entries()[k] == r
    }

    /// The handle recorded for the fingerprint of `values`, if any.
    pub open spec fn found(&self, values: Seq<T>) -> Option<SliceRange<T>> {
        let k = T::seq_fingerprint(values);
        if self.entries().contains_key(k) {
            Some(self.entries()[k])
        } else {
            None
        }
    }

    /// Appending `values` keeps every offset within `u32`.
    pub open spec fn has_room(&self, values: Seq<T>) -> bool {
        self.elems().len() + values.len() <= u32::MAX
    }

    /// Every recorded span lies in the arena, holds elements whose
    /// fingerprint is its key, and overlaps no other recorded span.
    pub open spec fn wf(&self) -> bool {
        &&& self.elems().len() <= u32::MAX
        &&& forall|k: u64| #[trigger]
            self.entries().contains_key(k) ==> {
                let r = self.entries()[k];
                &&& r.start <= r.end <= self.elems().len()
                &&& T::seq_fingerprint(self.values_at(r)) == k
            }
        &&& forall|k1: u64, k2: u64|
            #![trigger self.entries()[k1], self.entries()[k2]]
            self.entries().contains_key(k1) && self.entries().contains_key(k2) && k1 != k2
                ==> !spans_overlap(
                self.entries()[k1].start as int,
                self.entries()[k1].end as int,
                self.entries()[k2].start as int,
                self.entries()[k2].end as int,
            )
    }

    /// What interning `values` into `pre` does: a known fingerprint gives back
    /// its handle and changes nothing; a new one appends the elements and
    /// records the span that they fill.
    pub open spec fn interned(pre: Interner<T>, values: Seq<T>, post: Interner<T>, r: SliceRange<T>) -> bool {
        let k = T::seq_fingerprint(values);
        &&& post.wf()
        &&& if pre.entries().contains_key(k) {
            &&& r == pre.entries()[k]
            &&& post.elems() == pre.elems()
            &&& post.entries() == pre.entries()
        } else {
            &&& r.start == pre.elems().len()
            &&& r.end == post.elems().len()
            &&& post.elems() == pre.elems() + values
            &&& post.entries() == pre.entries().insert(k, r)
        }
    }

    /// An empty arena.
    pub fn new() -> (r: Interner<T>)
        ensures
            r.wf(),
            r.elems() == Seq::<T>::empty(),
            r.entries() == Map::<u64, SliceRange<T>>::empty(),
    {
        Interner { buffer: Vec::new(), map: HashMap::new() }
    }

    /// Number of elements held by the arena.
    pub fn buffer_len(&self) -> (r: usize)
        ensures
            r == self.elems().len(),
    {
        self.buffer.len()
    }

    /// Interns a copy of `values`, returning the handle of its span in the arena.
    pub fn intern_slice(&mut self, values: &[T]) -> (r: SliceRange<T>)
        requires
            old(self).wf(),
            old(self).has_room(values@),
        ensures
            Self::interned(*old(self), values@, *final(self), r),
            final(self).issued(r),
    {
        let key = HashKey::new_slice(values).0;
        match self.map.get(&key) {
            Some(found) => *found,
            None => {
                let ghost pre = *self;
                let start = self.buffer.len();
                append_all(&mut self.buffer, values);
                let end = self.buffer.len();
                let r = SliceRange::new(start, end);
                self.map.insert(key, r);
                proof {
                    assert(self.values_at(r) =~= values@);
                    assert forall|k: u64| #[trigger] self.entries().contains_key(k) implies {
                        let q = self.entries()[k];
                        &&& q.start <= q.end <= self.elems().len()
                        &&& T::seq_fingerprint(self.values_at(q)) == k
                    } by {
                        if k != key {
                            assert(pre.entries().contains_key(k));
                            let q = pre.entries()[k];
                            assert(self.values_at(q) =~= pre.values_at(q));
                        }
                    }
                    assert forall|k1: u64, k2: u64|
                        self.entries().contains_key(k1) && self.entries().contains_key(k2) && k1
                            != k2 implies !spans_overlap(
                        #[trigger] self.entries()[k1].start as int,
                        self.entries()[k1].end as int,
                        #[trigger] self.entries()[k2].start as int,
                        self.entries()[k2].end as int,
                    ) by {
                        if k1 != key {
                            assert(pre.entries().contains_key(k1));
                        }
                        if k2 != key {
                            assert(pre.entries().contains_key(k2));
                        }
                    }
                    assert(self.wf());
                    assert(self.entries().contains_key(key));
                }
                r
            },
        }
    }

    /// The handle already recorded for `values`, without interning them.
    pub fn get(&self, values: &[T]) -> (r: Option<SliceRange<T>>)
        requires
            self.wf(),
        ensures
            r == self.found(values@),
    {
        let key = HashKey::new_slice(values).0;
        match self.map.get(&key) {
            Some(found) => Some(*found),
            None => None,
        }
    }

    /// The elements that a handle of this arena stands for.
    pub fn lookup(&self, r: SliceRange<T>) -> (s: &[T])
        requires
            self.wf(),
            self.issued(r),
        ensures
            s@ == self.values_at(r),
    {
        let (start, end) = r.range();
        vstd::slice::slice_subrange(self.buffer.as_slice(), start, end)
    }
}

impl<T: Element> Default for Interner<T> {
    fn default() -> (r: Interner<T>)
        ensures
            r.wf(),
            r.elems() == Seq::<T>::empty(),
            r.entries() == Map::<u64, SliceRange<T>>::empty(),
    {
        Interner::new()
    }
}

} // verus!
