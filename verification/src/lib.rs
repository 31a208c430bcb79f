//! A custodial wagering ledger: hosts open games with configurable stake
//! limits and payout parameters, bettors place wagers against a host's locked
//! liquidity, an operator supplies randomness, and settlement moves the locked
//! funds to the winner. A second layer tracks per-principal balances and
//! converts realized profit into a fee split between operator and referrer.
//!
//! The persistent record store, signature checks, and the randomness producer
//! are external collaborators: callers load the records, verify the caller
//! identity, and hand both to the operations here, which validate and apply
//! every state transition.

pub mod account_ops;
pub mod account_type;
pub mod bet_ops;
pub mod coinflip;
pub mod constants;
pub mod crash;
pub mod error;
pub mod game;
pub mod game_ops;
pub mod identity;
pub mod randomness;
pub mod stats;
pub mod user_account;
pub mod vrf_result;
