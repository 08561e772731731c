use vstd::prelude::*;

verus! {

/// Two half-open spans overlap when they share at least one position.
pub open spec fn spans_overlap(s1: int, e1: int, s2: int, e2: int) -> bool {
    s1 < e2 && s2 < e1
}

/// A half-open byte range `start..end` into the buffer of a `StrInterner`.
#[derive(Debug, Clone, Copy, PartialEq, Eq, Structural, PartialOrd, Ord, Hash)]
pub struct StrRange {
    pub start: u32,
    pub end: u32,
}

impl StrRange {
    pub open spec fn wf(self) -> bool {
        self.start <= self.end
    }

    pub open spec fn start_spec(self) -> nat {
        self.start as nat
    }

    pub open spec fn end_spec(self) -> nat {
        self.end as nat
    }

    pub(crate) fn new(start: usize, end: usize) -> (r: StrRange)
        requires
            start <= end <= u32::MAX,
        ensures
            r.start_spec() == start,
            r.end_spec() == end,
            r.wf(),
    {
        StrRange { start: start as u32, end: end as u32 }
    }

    /// The offsets of the span, as `usize`.
    pub(crate) fn range(&self) -> (r: (usize, usize))
        ensures
            r.0 == self.start_spec(),
            r.1 == self.end_spec(),
    {
        (self.start as usize, self.end as usize)
    }

    /// Number of bytes covered by the span.
    pub fn len(&self) -> (r: usize)
        requires
            self.wf(),
        ensures
            r == self.end_spec() - self.start_spec(),
    {
        let (s, e) = self.range();
        e - s
    }

    /// Whether the span covers no byte.
    pub fn is_empty(&self) -> (r: bool)
        ensures
            r == (self.end_spec() <= self.start_spec()),
    {
        let (s, e) = self.range();
        e <= s
    }
}

/// A half-open range `start..end` into the buffer of an `Interner<T>`.
#[derive(Debug, Hash)]
pub struct SliceRange<T> {
    pub start: u32,
    pub end: u32,
    pub marker: std::marker::PhantomData<T>,
}

impl<T> SliceRange<T> {
    pub open spec fn wf(self) -> bool {
        self.start_spec() <= self.end_spec()
    }

    pub open spec fn start_spec(self) -> nat {
        self.start as nat
    }

    pub open spec fn end_spec(self) -> nat {
        self.end as nat
    }

    pub(crate) fn new(start: usize, end: usize) -> (r: SliceRange<T>)
        requires
            start <= end <= u32::MAX,
        ensures
            r.start_spec() == start,
            r.end_spec() == end,
            r.wf(),
    {
        SliceRange { start: start as u32, end: end as u32, marker: std::marker::PhantomData }
    }

    /// The offsets of the span, as `usize`.
    pub(crate) fn range(&self) -> (r: (usize, usize))
        ensures
            r.0 == self.start_spec(),
            r.1 == self.end_spec(),
    {
        (self.start as usize, self.end as usize)
    }

    /// Number of elements covered by the span.
    pub fn len(&self) -> (r: usize)
        requires
            self.wf(),
        ensures
            r == self.end_spec() - self.start_spec(),
    {
        let (s, e) = self.range();
        e - s
    }

    /// Whether the span covers no element.
    pub fn is_empty(&self) -> (r: bool)
        ensures
            r == (self.end_spec() <= self.start_spec()),
    {
        let (s, e) = self.range();
        e <= s
    }
}

impl<T> Clone for SliceRange<T> {
    fn clone(&self) -> (r: Self)
        ensures
            r == *self,
    {
        *self
    }
}

impl<T> Copy for SliceRange<T> {
}

impl<T> PartialEq for SliceRange<T> {
    fn eq(&self, other: &Self) -> (r: bool) {
        self.start == other.start && self.end == other.end
    }
}

impl<T> vstd::std_specs::cmp::PartialEqSpecImpl for SliceRange<T> {
    open spec fn obeys_eq_spec() -> bool {
        true
    }

    open spec fn eq_spec(&self, other: &Self) -> bool {
        self.start_spec() == other.start_spec() && self.end_spec() == other.end_spec()
    }
}

impl<T> Eq for SliceRange<T> {
}

impl<T> PartialOrd for SliceRange<T> {
    fn partial_cmp(&self, other: &Self) -> (r: Option<std::cmp::Ordering>) {
        if self.start < other.start {
            Some(std::cmp::Ordering::Less)
        } else if self.start > other.start {
            Some(std::cmp::Ordering::Greater)
        } else if self.end < other.end {
            Some(std::cmp::Ordering::Less)
        } else if self.end > other.end {
            Some(std::cmp::Ordering::Greater)
        } else {
            Some(std::cmp::Ordering::Equal)
        }
    }
}

impl<T> vstd::std_specs::cmp::PartialOrdSpecImpl for SliceRange<T> {
    open spec fn obeys_partial_cmp_spec() -> bool {
        true
    }

    open spec fn partial_cmp_spec(&self, other: &Self) -> Option<std::cmp::Ordering> {
        if self.start_spec() < other.start_spec() {
            Some(std::cmp::Ordering::Less)
        } else if self.start_spec() > other.start_spec() {
            Some(std::cmp::Ordering::Greater)
        } else if self.end_spec() < other.end_spec() {
            Some(std::cmp::Ordering::Less)
        } else if self.end_spec() > other.end_spec() {
            Some(std::cmp::Ordering::Greater)
        } else {
            Some(std::cmp::Ordering::Equal)
        }
    }
}

} // verus!
