//! Principals and record addresses.
//!
//! The host platform authenticates callers and derives record addresses; the
//! ledger only ever compares identities it is handed. An identity is therefore
//! an opaque token with equality, nothing more.

use vstd::prelude::*;

verus! {

/// A verified caller identity or record address, as the host platform hands
/// it over. Only equality matters to the ledger.
#[derive(Clone, Copy, Debug, PartialEq, Eq, Structural)]
pub struct Identity(pub u64);

} // verus!
