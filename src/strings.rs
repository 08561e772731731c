use std::collections::HashMap;
use vstd::prelude::*;
use vstd::string::StringSliceAdditionalSpecFns;
use vstd::utf8::*;

use crate::buffer::append_all;
use crate::fingerprint::{text_fingerprint, HashKey};
use crate::range::{spans_overlap, StrRange};

verus! {

broadcast use {vstd::std_specs::hash::group_hash_axioms, vstd::utf8::group_utf8_lib};

/// Relies on `std::str::from_utf8`: on valid UTF-8 it succeeds with a string
/// made of exactly those bytes.
#[verifier::external_body]
fn str_of_utf8<'a>(bytes: &'a [u8]) -> (r: &'a str)
    requires
        valid_utf8(bytes@),
    ensures
        r.spec_bytes() == bytes@,
{
    std::str::from_utf8(bytes).unwrap()
}

/// An arena of UTF-8 text in which each distinct string is stored once.
#[derive(Clone)]
pub struct StrInterner {
    buffer: Vec<u8>,
    map: HashMap<u64, StrRange>,
}

impl StrInterner {
    /// The bytes of the arena.
    pub closed spec fn bytes(&self) -> Seq<u8> {
        self.buffer@
    }

    /// The recorded handles, by fingerprint.
    pub closed spec fn entries(&self) -> Map<u64, StrRange> {
        self.map@
    }

    /// The text that the span `r` covers.
    pub open spec fn text_at(&self, r: StrRange) -> Seq<char> {
        decode_utf8(self.bytes().subrange(r.start as int, r.end as int))
    }

    /// `r` was handed out by this arena.
    pub open spec fn issued(&self, r: StrRange) -> bool {
        exists|k: u64| #[trigger] self.entries().contains_key(k) && self.entries()[k] == r
    }

    /// The handle recorded for the fingerprint of `text`, if any.
    pub open spec fn found(&self, text: Seq<char>) -> Option<StrRange> {
        let k = text_fingerprint(text);
        if self.entries().contains_key(k) {
            Some(self.entries()[k])
        } else {
            None
        }
    }

    /// Appending `text` keeps every offset within `u32`.
    pub open spec fn has_room(&self, text: Seq<char>) -> bool {
        self.bytes().len() + encode_utf8(text).len() <= u32::MAX
    }

    /// Every recorded span lies in the arena, holds valid UTF-8 whose
    /// fingerprint is its key, and overlaps no other recorded span.
    pub open spec fn wf(&self) -> bool {
        &&& self.bytes().len() <= u32::MAX
        &&& forall|k: u64| #[trigger]
            self.entries().contains_key(k) ==> {
                let r = self.entries()[k];
                &&& r.start <= r.end <= self.bytes().len()
                &&& valid_utf8(self.bytes().subrange(r.start as int, r.end as int))
                &&& text_fingerprint(self.text_at(r)) == k
            }
        &&& forall|k1: u64, k2: u64|
            #![trigger self.entries()[k1], self.entries()[k2]]
            self.entries().contains_key(k1) && self.entries().contains_key(k2) && k1 != k2
                ==> !spans_overlap(
                self.entries()[k1].start as int,
                self.entries()[k1].end as int,
                self.entries()[k2].start as int,
                self.entries()[k2].end as int,
            )
    }

    /// What interning `text` into `pre` does: a known fingerprint gives back
    /// its handle and changes nothing; a new one appends the text's bytes and
    /// records the span that they fill.
    pub open spec fn interned(pre: StrInterner, text: Seq<char>, post: StrInterner, r: StrRange) -> bool {
        let k = text_fingerprint(text);
        &&& post.wf()
        &&& if pre.entries().contains_key(k) {
            &&& r == pre.entries()[k]
            &&& post.bytes() == pre.bytes()
            &&& post.entries() == pre.entries()
        } else {
            &&& r.start == pre.bytes().len()
            &&& r.end == post.bytes().len()
            &&& post.bytes() == pre.bytes() + encode_utf8(text)
            &&& post.entries() == pre.entries().insert(k, r)
        }
    }

    /// An empty arena.
    pub fn new() -> (r: StrInterner)
        ensures
            r.wf(),
            r.bytes() == Seq::<u8>::empty(),
            r.entries() == Map::<u64, StrRange>::empty(),
    {
        StrInterner { buffer: Vec::new(), map: HashMap::new() }
    }

    /// Number of bytes held by the arena.
    pub fn buffer_len(&self) -> (r: usize)
        ensures
            r == self.bytes().len(),
    {
        self.buffer.len()
    }

    /// Interns `value`, returning the handle of its bytes in the arena.
    pub fn intern_str(&mut self, value: &str) -> (r: StrRange)
        requires
            old(self).wf(),
            old(self).has_room(value@),
        ensures
            Self::interned(*old(self), value@, *final(self), r),
            final(self).issued(r),
    {
        let key = HashKey::new_str(value).0;
        match self.map.get(&key) {
            Some(found) => *found,
            None => {
                let ghost pre = *self;
                let bytes = value.as_bytes();
                let start = self.buffer.len();
                append_all(&mut self.buffer, bytes);
                let end = self.buffer.len();
                let r = StrRange::new(start, end);
                self.map.insert(key, r);
                proof {
                    let enc = encode_utf8(value@);
                    assert(self.bytes().subrange(start as int, end as int) =~= enc);
                    assert forall|k: u64| #[trigger] pre.entries().contains_key(k) implies {
                        let q = pre.entries()[k];
                        self.bytes().subrange(q.start as int, q.end as int)
                            == pre.bytes().subrange(q.start as int, q.end as int)
                    } by {
                        let q = pre.entries()[k];
                        assert(self.bytes().subrange(q.start as int, q.end as int)
                            =~= pre.bytes().subrange(q.start as int, q.end as int));
                    }
                    assert(self.text_at(r) == value@);
                    assert(text_fingerprint(value@) == key);
                    assert forall|k: u64| #[trigger] self.entries().contains_key(k) implies {
                        let q = self.entries()[k];
                        &&& q.start <= q.end <= self.bytes().len()
                        &&& valid_utf8(self.bytes().subrange(q.start as int, q.end as int))
                        &&& text_fingerprint(self.text_at(q)) == k
                    } by {
                        if k != key {
                            assert(pre.entries().contains_key(k));
                        }
                    }
                    assert forall|k1: u64, k2: u64|
                        self.entries().contains_key(k1) && self.entries().contains_key(k2) && k1
                            != k2 implies !spans_overlap(
                        #[trigger] self.entries()[k1].start as int,
                        self.entries()[k1].end as int,
                        #[trigger] self.entries()[k2].start as int,
                        self.entries()[k2].end as int,
                    ) by {
                        if k1 != key {
                            assert(pre.entries().contains_key(k1));
                        }
                        if k2 != key {
                            assert(pre.entries().contains_key(k2));
                        }
                    }
                    assert(self.wf());
                    assert(self.entries().contains_key(key));
                }
                r
            },
        }
    }

    /// The handle already recorded for `value`, without interning it.
    pub fn get(&self, value: &str) -> (r: Option<StrRange>)
        requires
            self.wf(),
        ensures
            r == self.found(value@),
    {
        let key = HashKey::new_str(value).0;
        match self.map.get(&key) {
            Some(found) => Some(*found),
            None => None,
        }
    }

    /// The text that a handle of this arena stands for.
    pub fn lookup(&self, r: StrRange) -> (s: &str)
        requires
            self.wf(),
            self.issued(r),
        ensures
            s@ == self.text_at(r),
    {
        let (start, end) = r.range();
        let bytes = vstd::slice::slice_subrange(self.buffer.as_slice(), start, end);
        let s = str_of_utf8(bytes);
        proof {
            assert(decode_utf8(encode_utf8(s@)) == s@);
        }
        s
    }
}

impl Default for StrInterner {
    fn default() -> (r: StrInterner)
        ensures
            r.wf(),
            r.bytes() == Seq::<u8>::empty(),
            r.entries() == Map::<u64, StrRange>::empty(),
    {
        StrInterner::new()
    }
}

} // verus!
