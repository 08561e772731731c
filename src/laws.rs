use vstd::prelude::*;
use vstd::utf8::*;

use crate::fingerprint::{text_fingerprint, Element};
use crate::interner::Interner;
use crate::range::{spans_overlap, SliceRange, StrRange};
use crate::strings::StrInterner;

verus! {

broadcast use vstd::utf8::group_utf8_lib;

/// Text interned into a fresh arena is what its handle looks up.
pub proof fn str_round_trip(fresh: StrInterner, text: Seq<char>, post: StrInterner, r: StrRange)
    requires
        fresh.bytes() == Seq::<u8>::empty(),
        fresh.entries() == Map::<u64, StrRange>::empty(),
        StrInterner::interned(fresh, text, post, r),
    ensures
        post.text_at(r) == text,
{
    assert(post.bytes() =~= encode_utf8(text));
    assert(post.bytes().subrange(r.start as int, r.end as int) =~= encode_utf8(text));
}

/// Interning the same text twice gives equal handles, and the second call
/// does not grow the arena.
pub proof fn str_intern_idempotent(
    s0: StrInterner,
    text: Seq<char>,
    s1: StrInterner,
    r1: StrRange,
    s2: StrInterner,
    r2: StrRange,
)
    requires
        StrInterner::interned(s0, text, s1, r1),
        StrInterner::interned(s1, text, s2, r2),
    ensures
        r1 == r2,
        s2.bytes().len() == s1.bytes().len(),
{
}

/// Text whose fingerprint no interned text shares is not found; once
/// interned, it is found under the handle that interning returned.
pub proof fn str_find_before_and_after(s0: StrInterner, text: Seq<char>, s1: StrInterner, r: StrRange)
    requires
        s0.wf(),
        forall|q: StrRange| #[trigger]
            s0.issued(q) ==> text_fingerprint(s0.text_at(q)) != text_fingerprint(text),
        StrInterner::interned(s0, text, s1, r),
    ensures
        s0.found(text) is None,
        s1.found(text) == Some(r),
{
    let k = text_fingerprint(text);
    if s0.entries().contains_key(k) {
        assert(s0.issued(s0.entries()[k]));
    }
}

/// Two texts with different fingerprints, interned one after the other,
/// get spans that do not overlap.
pub proof fn str_disjoint(
    s0: StrInterner,
    t1: Seq<char>,
    s1: StrInterner,
    r1: StrRange,
    t2: Seq<char>,
    s2: StrInterner,
    r2: StrRange,
)
    requires
        s0.wf(),
        text_fingerprint(t1) != text_fingerprint(t2),
        StrInterner::interned(s0, t1, s1, r1),
        StrInterner::interned(s1, t2, s2, r2),
    ensures
        !spans_overlap(r1.start as int, r1.end as int, r2.start as int, r2.end as int),
{
    let k1 = text_fingerprint(t1);
    let k2 = text_fingerprint(t2);
    assert(s2.entries().contains_key(k1) && s2.entries()[k1] == r1);
    assert(s2.entries().contains_key(k2) && s2.entries()[k2] == r2);
}

/// Elements interned into a fresh arena are what their handle looks up.
pub proof fn slice_round_trip<T: Element>(
    fresh: Interner<T>,
    values: Seq<T>,
    post: Interner<T>,
    r: SliceRange<T>,
)
    requires
        fresh.elems() == Seq::<T>::empty(),
        fresh.entries() == Map::<u64, SliceRange<T>>::empty(),
        Interner::interned(fresh, values, post, r),
    ensures
        post.values_at(r) == values,
{
    assert(post.elems() =~= values);
    assert(post.values_at(r) =~= values);
}

/// Interning the same elements twice gives equal handles, and the second
/// call does not grow the arena.
pub proof fn slice_intern_idempotent<T: Element>(
    s0: Interner<T>,
    values: Seq<T>,
    s1: Interner<T>,
    r1: SliceRange<T>,
    s2: Interner<T>,
    r2: SliceRange<T>,
)
    requires
        Interner::interned(s0, values, s1, r1),
        Interner::interned(s1, values, s2, r2),
    ensures
        r1 == r2,
        s2.elems().len() == s1.elems().len(),
{
}

/// Elements whose fingerprint no interned sequence shares are not found;
/// once interned, they are found under the handle that interning returned.
pub proof fn slice_find_before_and_after<T: Element>(
    s0: Interner<T>,
    values: Seq<T>,
    s1: Interner<T>,
    r: SliceRange<T>,
)
    requires
        s0.wf(),
        forall|q: SliceRange<T>| #[trigger]
            s0.issued(q) ==> T::seq_fingerprint(s0.values_at(q)) != T::seq_fingerprint(values),
        Interner::interned(s0, values, s1, r),
    ensures
        s0.found(values) is None,
        s1.found(values) == Some(r),
{
    let k = T::seq_fingerprint(values);
    if s0.entries().contains_key(k) {
        assert(s0.issued(s0.entries()[k]));
    }
}

/// Two sequences with different fingerprints, interned one after the
/// other, get spans that do not overlap.
pub proof fn slice_disjoint<T: Element>(
    s0: Interner<T>,
    v1: Seq<T>,
    s1: Interner<T>,
    r1: SliceRange<T>,
    v2: Seq<T>,
    s2: Interner<T>,
    r2: SliceRange<T>,
)
    requires
        s0.wf(),
        T::seq_fingerprint(v1) != T::seq_fingerprint(v2),
        Interner::interned(s0, v1, s1, r1),
        Interner::interned(s1, v2, s2, r2),
    ensures
        !spans_overlap(r1.start as int, r1.end as int, r2.start as int, r2.end as int),
{
    let k1 = T::seq_fingerprint(v1);
    let k2 = T::seq_fingerprint(v2);
    assert(s2.entries().contains_key(k1) && s2.entries()[k1] == r1);
    assert(s2.entries().contains_key(k2) && s2.entries()[k2] == r2);
}

} // verus!
