//! Process-wide policy constants.

use vstd::prelude::*;

verus! {

/// Basis points (of 10000) of realized profit taken as the protocol fee on
/// withdrawal.
pub const PROFIT_SHARE: u64 = 100;

/// The denominator for every basis-point rate in the ledger.
pub const BASIS_POINTS: u64 = 10000;

} // verus!
