//! How the currency is asked to take funds out of an account.
use vstd::prelude::*;

verus! {

/// Whether an account has to survive having funds taken out of it.
#[derive(Clone, Copy, Debug, PartialEq, Eq, Structural)]
pub enum Preservation {
    /// The account may be reaped.
    Expendable,
    /// The account may not be reaped, but a provider reference may be lost.
    Protect,
    /// The account keeps its minimum balance.
    Preserve,
}

/// Whether less than the amount asked for is good enough.
#[derive(Clone, Copy, Debug, PartialEq, Eq, Structural)]
pub enum Precision {
    /// The whole amount or nothing.
    Exact,
    /// As much of the amount as there is.
    BestEffort,
}

/// Whether user-level restrictions on an account are overridden.
#[derive(Clone, Copy, Debug, PartialEq, Eq, Structural)]
pub enum Fortitude {
    /// Locks, freezes and holds are respected.
    Polite,
    /// Restrictions are overridden.
    Force,
}

} // verus!
