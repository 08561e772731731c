use vstd::prelude::*;

use crate::fingerprint::Element;
use crate::interner::Interner;
use crate::range::{SliceRange, StrRange};
use crate::strings::StrInterner;

verus! {

/// Interning of one shape of input into an arena.
pub trait Intern<V>: Sized {
    type Output;

    /// The arena is well formed and has room for `value`.
    spec fn can_intern(&self, value: &V) -> bool;

    /// What interning `value` into `pre` leaves in `post` and hands back.
    spec fn interns_to(pre: &Self, value: &V, post: &Self, r: Self::Output) -> bool;

    /// Interns `value`, returning the handle of its content in the arena.
    fn intern(&mut self, value: V) -> (r: Self::Output)
        requires
            old(self).can_intern(&value),
        ensures
            Self::interns_to(old(self), &value, final(self), r),
    ;
}

impl<'a> Intern<&'a str> for StrInterner {
    type Output = StrRange;

    open spec fn can_intern(&self, value: &&'a str) -> bool {
        self.wf() && self.has_room((*value)@)
    }

    open spec fn interns_to(pre: &Self, value: &&'a str, post: &Self, r: StrRange) -> bool {
        StrInterner::interned(*pre, (*value)@, *post, r) && post.issued(r)
    }

    fn intern(&mut self, value: &'a str) -> (r: StrRange) {
        self.intern_str(value)
    }
}

impl Intern<String> for StrInterner {
    type Output = StrRange;

    open spec fn can_intern(&self, value: &String) -> bool {
        self.wf() && self.has_room(value@)
    }

    open spec fn interns_to(pre: &Self, value: &String, post: &Self, r: StrRange) -> bool {
        StrInterner::interned(*pre, value@, *post, r) && post.issued(r)
    }

    fn intern(&mut self, value: String) -> (r: StrRange) {
        self.intern_str(value.as_str())
    }
}

impl<'a, T: Element> Intern<&'a [T]> for Interner<T> {
    type Output = SliceRange<T>;

    open spec fn can_intern(&self, values: &&'a [T]) -> bool {
        self.wf() && self.has_room((*values)@)
    }

    open spec fn interns_to(pre: &Self, values: &&'a [T], post: &Self, r: SliceRange<T>) -> bool {
        Interner::interned(*pre, (*values)@, *post, r) && post.issued(r)
    }

    fn intern(&mut self, values: &'a [T]) -> (r: SliceRange<T>) {
        self.intern_slice(values)
    }
}

impl<T: Element> Intern<Vec<T>> for Interner<T> {
    type Output = SliceRange<T>;

    open spec fn can_intern(&self, values: &Vec<T>) -> bool {
        self.wf() && self.has_room(values@)
    }

    open spec fn interns_to(pre: &Self, values: &Vec<T>, post: &Self, r: SliceRange<T>) -> bool {
        Interner::interned(*pre, values@, *post, r) && post.issued(r)
    }

    fn intern(&mut self, values: Vec<T>) -> (r: SliceRange<T>) {
        self.intern_slice(values.as_slice())
    }
}

impl<T: Element, const N: usize> Intern<[T; N]> for Interner<T> {
    type Output = SliceRange<T>;

    open spec fn can_intern(&self, values: &[T; N]) -> bool {
        self.wf() && self.has_room(values@)
    }

    open spec fn interns_to(pre: &Self, values: &[T; N], post: &Self, r: SliceRange<T>) -> bool {
        Interner::interned(*pre, values@, *post, r) && post.issued(r)
    }

    fn intern(&mut self, values: [T; N]) -> (r: SliceRange<T>) {
        self.intern_slice(values.as_slice())
    }
}

} // verus!
