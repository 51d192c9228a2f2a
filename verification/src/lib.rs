//! A typed, append-only arena addressed by strongly-typed integer handles.
//!
//! An [`Arena`] owns a contiguous, growable sequence of values and hands out
//! a typed [`Id`] for each value on insertion; the ID's raw value is the
//! value's position in the sequence. IDs are small, copyable handles meant to
//! stand in for references when modelling graphs or interlinked records.

use vstd::prelude::*;

mod arena;
mod id;
mod raw;

pub use arena::Arena;
pub use arena::lemma_empty_iff_len_zero;
pub use arena::lemma_exact_copy_round_trips;
pub use arena::visit_err;
pub use arena::visit_ok;
pub use id::HasId;
pub use id::Id;
pub use raw::RawIndex;

verus! {

/// The number of elements an empty arena is sized for by default.
pub const DEFAULT_ARENA_CAPACITY: usize = 512;

} // verus!
