//! Errors raised while planning the seed data.
use vstd::prelude::*;

verus! {

/// Why a seeding step cannot go on.
#[derive(Clone, Copy, Debug, PartialEq, Eq)]
pub enum SeedError {
    /// A round-robin assignment was given no target to assign to.
    Exhausted,
    /// A user would be linked to a supplier and to a client at once.
    OwnershipConflict,
}

} // verus!
