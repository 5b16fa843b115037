//! Instructions for the token subsystem.
//!
//! The library moves no tokens itself. An operation that succeeds hands back
//! the instruction that the token subsystem has to carry out; the new records
//! take effect together with it or not at all.

use vstd::prelude::*;

verus! {

/// Remove `amount` base units from the caller's balance for good.
#[derive(Clone, Copy, Debug, PartialEq, Eq, Structural)]
pub struct Burn {
    /// Base units to remove from circulation.
    pub amount: u64,
    /// Decimals that the token subsystem checks the amount against.
    pub decimals: u8,
}

/// Move `amount` base units out of the pooled reward vault.
#[derive(Clone, Copy, Debug, PartialEq, Eq, Structural)]
pub struct Transfer {
    /// Base units to move.
    pub amount: u64,
    /// Decimals that the token subsystem checks the amount against.
    pub decimals: u8,
}

} // verus!
