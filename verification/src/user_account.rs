//! The per-principal balance record: running balance, lifetime deposit and
//! withdrawal totals, activity counters, and the profit-share rule applied on
//! withdrawal.

use vstd::prelude::*;

use crate::account_type::StateAccountType;
use crate::constants::{BASIS_POINTS, PROFIT_SHARE};
use crate::identity::Identity;

verus! {

/// One principal's ledger record, created on registration.
#[derive(Clone, Debug)]
pub struct UserAccount {
    pub account_type: StateAccountType,
    pub authority: Identity,
    /// Monotonic count of bets ever placed; doubles as the next bet's id.
    pub total_bets: u32,
    pub current_lamports: u64,
    pub lamports_deposited: u64,
    pub lamports_withdrew: u64,
    /// Bet records placed by this principal and not yet closed.
    pub active_vrf_results: u32,
    /// Game records hosted by this principal and not yet closed.
    pub games_hosted: u32,
    /// One-time-set referrer, paid half of every profit share.
    pub referral: Option<Identity>,
    pub username: Option<String>,
}

/// The slice of a withdrawal that is realized profit: nothing while lifetime
/// withdrawals stay inside lifetime deposits, the part that crosses that
/// threshold, or the whole amount once past it.
pub open spec fn profit_of(deposited: int, withdrew: int, amount: int) -> int {
    if withdrew + amount <= deposited {
        0
    } else if withdrew <= deposited {
        withdrew + amount - deposited
    } else {
        amount
    }
}

/// The protocol fee on a withdrawal: `PROFIT_SHARE` basis points of the
/// realized profit.
pub open spec fn profit_share_of(deposited: int, withdrew: int, amount: int) -> int {
    profit_of(deposited, withdrew, amount) * PROFIT_SHARE / BASIS_POINTS as int
}

impl UserAccount {
    /// A fresh registration: every counter and balance at zero.
    pub fn new(authority: Identity, referral: Option<Identity>, username: Option<String>) -> (r:
        UserAccount)
        ensures
            r.account_type == StateAccountType::UserAccount,
            r.authority == authority,
            r.total_bets == 0,
            r.current_lamports == 0,
            r.lamports_deposited == 0,
            r.lamports_withdrew == 0,
            r.active_vrf_results == 0,
            r.games_hosted == 0,
            r.referral == referral,
            r.username == username,
    {
        UserAccount {
            account_type: StateAccountType::UserAccount,
            authority,
            total_bets: 0,
            current_lamports: 0,
            lamports_deposited: 0,
            lamports_withdrew: 0,
            active_vrf_results: 0,
            games_hosted: 0,
            referral,
            username,
        }
    }

    /// The protocol fee owed on withdrawing `withdraw_amount` now.
    pub fn get_profit_share(&self, withdraw_amount: u64) -> (r: u64)
        requires
            withdraw_amount <= self.current_lamports,
        ensures
            r == profit_share_of(
                self.lamports_deposited as int,
                self.lamports_withdrew as int,
                withdraw_amount as int,
            ),
            r <= withdraw_amount,
    {
        let deposited = self.lamports_deposited as u128;
        let withdrew = self.lamports_withdrew as u128;
        let amount = withdraw_amount as u128;
        let profit: u128 = if withdrew + amount <= deposited {
            0
        } else if withdrew <= deposited {
            withdrew + amount - deposited
        } else {
            amount
        };
        assert(profit <= amount);
        let share: u128 = profit * (PROFIT_SHARE as u128) / (BASIS_POINTS as u128);
        proof {
            lemma_share_le_profit(profit as int);
        }
        share as u64
    }
}

/// The fee is never more than the profit it is taken from, because the rate
/// is below one.
proof fn lemma_share_le_profit(profit: int)
    requires
        0 <= profit,
    ensures
        profit * PROFIT_SHARE / BASIS_POINTS as int <= profit,
{
    vstd::arithmetic::div_mod::lemma_multiply_divide_le(
        profit * PROFIT_SHARE,
        BASIS_POINTS as int,
        profit,
    );
}

/// Law: a withdrawal that stays within the principal — lifetime withdrawals
/// plus this amount still at most lifetime deposits — carries a profit share
/// of exactly zero.
pub proof fn lemma_profit_share_within_principal(deposited: int, withdrew: int, amount: int)
    requires
        0 <= amount,
        0 <= withdrew,
        withdrew + amount <= deposited,
    ensures
        profit_share_of(deposited, withdrew, amount) == 0,
{
}

} // verus!
