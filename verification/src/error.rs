//! Structured error codes surfaced by every failing operation. A failure
//! aborts the whole request with no state change, so each operation's
//! contract says exactly which error comes back on which inputs.

use vstd::prelude::*;

verus! {

/// Every way a ledger operation can be refused.
#[derive(Clone, Copy, Debug, PartialEq, Eq, Structural)]
pub enum BettingError {
    /// The caller does not own the record it tries to mutate.
    NoAuthority,
    /// A record that must be written was supplied read-only.
    AccountNotWritable,
    /// A request that must be signed was not.
    AccountNotSigner,
    /// A record's derived address does not match the expected one.
    WrongPDA,
    /// An identity does not match the one a record names.
    WrongPubkey,
    /// A record does not belong to this ledger.
    WrongAccountOwner,
    /// Settling a bet whose randomness has not been supplied yet.
    VrfResultNotFullfilled,
    /// Fulfilling or settling a bet that was already settled.
    VrfResultAlreadyUsed,
    /// Closing an account that still has funds, games, or open bets.
    UserAccountNotSettled,
    /// Placing a bet against a deactivated game.
    GameNotActive,
    /// Supplying randomness to a bet that already has it.
    VrfResultAlreadyFullfilled,
    /// Closing a bet that was never settled.
    VrfResultNotUsed,
    /// Closing a bet its owner never marked for close.
    VrfResultNotMarkedForClose,
    /// Closing a game that still has unresolved bets.
    GameNotSettled,
    /// A record supplied before it was ever written.
    UninitializedAccount,
    /// A record whose bytes are not the expected kind of record.
    InvalidAccountData,
    /// A bet input that does not match the game or its wager bounds.
    InvalidArgument,
    /// A lock or withdrawal that exceeds the available balance.
    InsufficientFunds,
}

} // verus!
