//! The crash payout rule: the bettor names a target multiplier in hundredths
//! and wins when the realized multiplier reaches it. The realized multiplier
//! is `((100*M - n) / (M - n)) / 100` for the random value `n` and the
//! 64-bit range maximum `M`, except that `n` divisible by `round(10000 / p1)`
//! crashes instantly at 1.00, where `p1` is the rule's basis-point
//! probability of an instant crash.

use vstd::prelude::*;

use crate::error::BettingError;
use crate::game::{BetInput, Game, GameTypeConfig};
use crate::randomness::{rand_number_from_beta, rand_value_of};
use crate::user_account::UserAccount;
use crate::vrf_result::VrfResult;

verus! {

/// Crash parameters.
#[derive(Clone, Copy, Debug, PartialEq, Eq, Structural)]
pub struct CrashConfig {
    /// Basis-point probability of an instant crash at 1.00.
    pub multiplier_straight_one_possibility: u64,
}

/// A crash wager: the amount and the target multiplier in hundredths.
#[derive(Clone, Copy, Debug, PartialEq, Eq, Structural)]
pub struct CrashInput {
    pub target_multiplier: u64,
    pub wager: u64,
}

/// The instant-crash divisor `round(10000 / p1)`. Meaningful only for
/// positive `p1`.
pub open spec fn crash_divisor(p1: int) -> int {
    (20000 + p1) / (2 * p1)
}

/// The host's lock against a crash wager: the full payout at the target
/// multiplier, `floor(wager * target / 100)`.
pub open spec fn crash_host_lock(wager: int, target_multiplier: int) -> int {
    wager * target_multiplier / 100
}

/// Whether the bettor's target is reached: the realized multiplier is 1.00
/// on an instant crash and `((100*M - n) / (M - n)) / 100` otherwise, and
/// the bettor wins when `target / 100` is at most that value. Both sides of
/// the comparison are scaled by `100 * (M - n)` — with the inequality
/// flipped where `M - n` is negative — so the spec needs no division. A rule
/// with `p1 == 0` never crashes instantly, and a `p1` so large that the
/// divisor rounds to zero is treated the same way.
pub open spec fn crash_bettor_wins(p1: int, target: int, n: int) -> bool {
    let m = u64::MAX as int;
    if p1 > 0 && crash_divisor(p1) > 0 && n % crash_divisor(p1) == 0 {
        target <= 100
    } else if n <= m {
        target * (m - n) <= 100 * m - n
    } else {
        100 * m - n <= target * (m - n)
    }
}

/// For a nonnegative numerator and positive denominator, an integer is at
/// most the quotient exactly when its product with the denominator is at
/// most the numerator.
proof fn lemma_le_div_iff(t: int, a: int, b: int)
    requires
        0 <= t,
        0 <= a,
        0 < b,
    ensures
        t <= a / b <==> t * b <= a,
{
    vstd::arithmetic::div_mod::lemma_fundamental_div_mod(a, b);
    let q = a / b;
    let rem = a % b;
    if t <= q {
        assert(t * b <= a) by (nonlinear_arith)
            requires
                t <= q,
                a == b * q + rem,
                0 <= rem,
                0 < b,
        ;
    }
    if t * b <= a {
        assert(t <= q) by (nonlinear_arith)
            requires
                t * b <= a,
                a == b * q + rem,
                rem < b,
                0 < b,
        ;
    }
}

/// Above the 64-bit range the scaled comparison collapses: only a target of
/// zero, against a random value at or past `100 * M`, still wins.
proof fn lemma_crash_overrange(t: int, n: int)
    requires
        0 <= t,
        u64::MAX < n,
    ensures
        (100 * (u64::MAX as int) - n <= t * ((u64::MAX as int) - n)) <==> (t == 0 && n >= 100 * (
        u64::MAX as int)),
{
    let m = u64::MAX as int;
    if t == 0 {
        assert(t * (m - n) == 0);
    } else {
        assert(100 * m - n > t * (m - n)) by (nonlinear_arith)
            requires
                1 <= t,
                m < n,
                0 < m,
        ;
    }
}

impl CrashInput {
    /// Accepts the input only for a crash game whose wager bounds it
    /// respects.
    pub fn check_bet_input(&self, game: &Game) -> (r: Result<(), BettingError>)
        ensures
            r is Ok <==> (game.game_type_config is Crash && game.common_config.min_wager
                <= self.wager && self.wager <= game.common_config.max_wager),
            r is Err ==> r == Result::<(), BettingError>::Err(BettingError::InvalidArgument),
    {
        if !(matches!(game.game_type_config, GameTypeConfig::Crash { .. })) || self.wager
            < game.common_config.min_wager || self.wager > game.common_config.max_wager {
            Err(BettingError::InvalidArgument)
        } else {
            Ok(())
        }
    }

    /// The bettor locks exactly the wager; fails unless the balance covers
    /// it.
    pub fn check_bettor_balance(&self, _game: &Game, user_account: &UserAccount) -> (r: Result<
        u64,
        BettingError,
    >)
        ensures
            r is Ok <==> self.wager <= user_account.current_lamports,
            r is Ok ==> r == Result::<u64, BettingError>::Ok(self.wager),
            r is Err ==> r == Result::<u64, BettingError>::Err(BettingError::InsufficientFunds),
    {
        if user_account.current_lamports >= self.wager {
            Ok(self.wager)
        } else {
            Err(BettingError::InsufficientFunds)
        }
    }

    /// The host locks the full payout at the target multiplier; fails unless
    /// the host's balance covers it.
    pub fn check_host_balance(&self, _game: &Game, user_account: &UserAccount) -> (r: Result<
        u64,
        BettingError,
    >)
        ensures
            ({
                let lock = crash_host_lock(self.wager as int, self.target_multiplier as int);
                &&& (r is Ok <==> lock <= user_account.current_lamports)
                &&& (r is Ok ==> r->Ok_0 == lock)
                &&& (r is Err ==> r == Result::<u64, BettingError>::Err(
                    BettingError::InsufficientFunds,
                ))
            }),
    {
        proof {
            vstd::arithmetic::mul::lemma_mul_upper_bound(
                self.wager as int,
                u64::MAX as int,
                self.target_multiplier as int,
                u64::MAX as int,
            );
        }
        let payout_if_bettor_win: u128 = (self.wager as u128) * (self.target_multiplier as u128)
            / 100;
        if (user_account.current_lamports as u128) >= payout_if_bettor_win {
            Ok(payout_if_bettor_win as u64)
        } else {
            Err(BettingError::InsufficientFunds)
        }
    }
}

impl CrashConfig {
    /// Whether the target multiplier is reached by a fulfilled bet's random
    /// value.
    fn bettor_wins(&self, target_multiplier: u64, beta: &[u8; 64]) -> (w: bool)
        ensures
            w == crash_bettor_wins(
                self.multiplier_straight_one_possibility as int,
                target_multiplier as int,
                rand_value_of(beta@) as int,
            ),
    {
        let n: u128 = rand_number_from_beta(beta);
        let m: u128 = u64::MAX as u128;
        let p1 = self.multiplier_straight_one_possibility;
        let divisor: u128 = if p1 > 0 {
            (20000u128 + p1 as u128) / (2 * p1 as u128)
        } else {
            0
        };
        if p1 > 0 && divisor > 0 && n % divisor == 0 {
            target_multiplier <= 100
        } else if n < m {
            let q: u128 = (100 * m - n) / (m - n);
            proof {
                lemma_le_div_iff(
                    target_multiplier as int,
                    100 * (u64::MAX as int) - n,
                    (u64::MAX as int) - n,
                );
            }
            (target_multiplier as u128) <= q
        } else if n == m {
            proof {
                assert((u64::MAX as int) - n == 0);
                vstd::arithmetic::mul::lemma_mul_basics(target_multiplier as int);
            }
            true
        } else {
            proof {
                lemma_crash_overrange(target_multiplier as int, n as int);
            }
            target_multiplier == 0 && n >= 100 * m
        }
    }

    /// Applies the crash rule to a fulfilled, unused bet record and yields
    /// the gains `(host, bettor)`: the whole escrow to the winner.
    pub fn process_vrf_result(&self, vrf_result: &VrfResult) -> (r: Result<
        (u64, u64),
        BettingError,
    >)
        requires
            vrf_result.locked_total() <= u64::MAX,
        ensures
            vrf_result.settle_guard() is Some ==> r == Result::<(u64, u64), BettingError>::Err(
                vrf_result.settle_guard()->0,
            ),
            vrf_result.settleable() && !(vrf_result.bet_input is Crash) ==> r == Result::<
                (u64, u64),
                BettingError,
            >::Err(BettingError::InvalidArgument),
            vrf_result.settleable() && vrf_result.bet_input is Crash ==> {
                let wins = crash_bettor_wins(
                    self.multiplier_straight_one_possibility as int,
                    vrf_result.bet_input->Crash_input.target_multiplier as int,
                    rand_value_of(vrf_result.beta@) as int,
                );
                r == Result::<(u64, u64), BettingError>::Ok(
                    if wins {
                        (0u64, vrf_result.locked_total() as u64)
                    } else {
                        (vrf_result.locked_total() as u64, 0u64)
                    },
                )
            },
    {
        match vrf_result.check_vrf_result() {
            Err(e) => return Err(e),
            Ok(()) => (),
        }
        if let BetInput::Crash { input } = vrf_result.bet_input {
            let total = vrf_result.locked_bettor_lamports + vrf_result.locked_host_lamports;
            if self.bettor_wins(input.target_multiplier, &vrf_result.beta) {
                Ok((0, total))
            } else {
                Ok((total, 0))
            }
        } else {
            Err(BettingError::InvalidArgument)
        }
    }

    /// Resolves a fulfilled, unused crash bet to the winner bit.
    pub fn resolve(&self, vrf_result: &VrfResult) -> (r: Result<bool, BettingError>)
        ensures
            vrf_result.settle_guard() is Some ==> r == Result::<bool, BettingError>::Err(
                vrf_result.settle_guard()->0,
            ),
            vrf_result.settleable() && !(vrf_result.bet_input is Crash) ==> r == Result::<
                bool,
                BettingError,
            >::Err(BettingError::InvalidArgument),
            vrf_result.settleable() && vrf_result.bet_input is Crash ==> r == Result::<
                bool,
                BettingError,
            >::Ok(
                crash_bettor_wins(
                    self.multiplier_straight_one_possibility as int,
                    vrf_result.bet_input->Crash_input.target_multiplier as int,
                    rand_value_of(vrf_result.beta@) as int,
                ),
            ),
    {
        match vrf_result.check_vrf_result() {
            Err(e) => return Err(e),
            Ok(()) => (),
        }
        if let BetInput::Crash { input } = vrf_result.bet_input {
            Ok(self.bettor_wins(input.target_multiplier, &vrf_result.beta))
        } else {
            Err(BettingError::InvalidArgument)
        }
    }
}

} // verus!
