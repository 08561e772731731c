//! Content-addressed interning of strings and element sequences into
//! append-only arenas, addressed by copyable offset-range handles.

mod buffer;
mod fingerprint;
mod intern;
mod interner;
mod laws;
mod range;
mod strings;

pub use fingerprint::{
    Element, HashKey, SLICE_SEED_0, SLICE_SEED_1, SLICE_SEED_2, SLICE_SEED_3, TEXT_SEED_0,
    TEXT_SEED_1, TEXT_SEED_2, TEXT_SEED_3,
};
pub use range::{SliceRange, StrRange};
pub use strings::StrInterner;
pub use interner::Interner;
pub use intern::Intern;
pub use laws::{
    slice_disjoint, slice_find_before_and_after, slice_intern_idempotent, slice_round_trip,
    str_disjoint, str_find_before_and_after, str_intern_idempotent, str_round_trip,
};
