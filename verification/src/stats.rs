//! The process-wide aggregate record, created once and updated as a side
//! effect of every account, game, and bet operation.

use vstd::prelude::*;

use crate::account_type::StateAccountType;

verus! {

/// Global counters over the whole ledger. Every field only ever moves by the
/// increments and decrements the operations' contracts state.
#[derive(Clone, Debug)]
pub struct Stats {
    pub account_type: StateAccountType,
    pub total_games: u64,
    pub total_users: u32,
    pub total_bets: u32,
    pub total_wager: u64,
    pub total_lamports_won_by_bettors: u64,
    pub total_lamports_deposited: u64,
    pub total_lamports_withdrew: u64,
}

impl Stats {
    /// The one-time initial aggregate: every counter at zero.
    pub fn new() -> (r: Stats)
        ensures
            r.account_type == StateAccountType::Stats,
            r.total_games == 0,
            r.total_users == 0,
            r.total_bets == 0,
            r.total_wager == 0,
            r.total_lamports_won_by_bettors == 0,
            r.total_lamports_deposited == 0,
            r.total_lamports_withdrew == 0,
    {
        Stats {
            account_type: StateAccountType::Stats,
            total_games: 0,
            total_users: 0,
            total_bets: 0,
            total_wager: 0,
            total_lamports_won_by_bettors: 0,
            total_lamports_deposited: 0,
            total_lamports_withdrew: 0,
        }
    }
}

impl Default for Stats {
    fn default() -> (r: Stats)
        ensures
            r.account_type == StateAccountType::Stats,
            r.total_games == 0,
            r.total_users == 0,
            r.total_bets == 0,
            r.total_wager == 0,
            r.total_lamports_won_by_bettors == 0,
            r.total_lamports_deposited == 0,
            r.total_lamports_withdrew == 0,
    {
        Stats::new()
    }
}

} // verus!
