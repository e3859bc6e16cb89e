//! The error taxonomy: every invalid intent is rejected with one of
//! these recoverable errors, leaving the state unchanged.

use vstd::prelude::*;

verus! {

/// Why a movement intent was rejected.
#[derive(Clone, Copy, PartialEq, Eq, Debug, Structural)]
pub enum IllegalMove {
    /// The destination tile holds another unit.
    OccupiedByUnit,
    /// The destination tile holds an impassable projectile.
    BlockedByImpassableProjectile,
}

/// Why a spell-targeting intent was rejected.
#[derive(Clone, Copy, PartialEq, Eq, Debug, Structural)]
pub enum InvalidSpellTarget {
    /// The input shape does not match the spell's targeting kind.
    WrongInputKind,
    /// A geometric validity predicate failed.
    PredicateFailed,
    /// Fewer or more tiles than the spell requires were picked.
    IncompleteSelection,
    /// The spell's targeting is intentionally disabled and never
    /// claims validity.
    NotImplemented,
}

/// Why a spell-point allocation intent was rejected.
#[derive(Clone, Copy, PartialEq, Eq, Debug, Structural)]
pub enum AllocationInvariantViolated {
    /// The element already holds the per-element ceiling of points.
    ExceedsElementCap,
    /// No point is available on the side the intent takes from: the
    /// unallocated pool is empty on an increment, or the element has
    /// no allocated point to return on a decrement.
    PoolExhausted,
}

} // verus!
