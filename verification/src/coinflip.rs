//! The coin-flip payout rule: a binary side bet with a symmetric dead zone
//! around the midpoint as the house edge, and a payout rate in basis points.

use vstd::prelude::*;

use crate::constants::BASIS_POINTS;
use crate::error::BettingError;
use crate::game::{BetInput, Game, GameTypeConfig};
use crate::randomness::{rand_number_from_beta, rand_value_of};
use crate::user_account::UserAccount;
use crate::vrf_result::VrfResult;

verus! {

/// Coin-flip parameters, both in basis points of 10000.
#[derive(Clone, Copy, Debug, PartialEq, Eq, Structural)]
pub struct CoinFlipConfig {
    /// Half the width of the dead zone centered at 5000 that goes to the
    /// host whatever side was chosen.
    pub host_probability_advantage: u64,
    /// What the host must lock per wagered unit, in basis points.
    pub payout_rate: u64,
}

/// A coin-flip wager: the amount and the chosen side.
#[derive(Clone, Copy, Debug, PartialEq, Eq, Structural)]
pub struct CoinFlipInput {
    pub wager: u64,
    pub side: CoinFlipSide,
}

#[derive(Clone, Copy, Debug, PartialEq, Eq, Structural)]
pub enum CoinFlipSide {
    Head,
    Tail,
}

/// Whether the chosen side beats the random number reduced into [0, 10000):
/// Head wins below `5000 - advantage`, Tail wins above `5000 + advantage`,
/// and the dead zone between them always goes to the host.
pub open spec fn coinflip_bettor_wins(side: CoinFlipSide, advantage: int, r: int) -> bool {
    match side {
        CoinFlipSide::Head => r < 5000 - advantage,
        CoinFlipSide::Tail => r > 5000 + advantage,
    }
}

/// The host's lock against a coin-flip wager: the payout rate applied in
/// basis points, rounded down.
pub open spec fn coinflip_host_lock(wager: int, payout_rate: int) -> int {
    wager * payout_rate / BASIS_POINTS as int
}

impl CoinFlipInput {
    /// Accepts the input only for a coin-flip game whose wager bounds it
    /// respects.
    pub fn check_bet_input(&self, game: &Game) -> (r: Result<(), BettingError>)
        ensures
            r is Ok <==> (game.game_type_config is CoinFlip
                && game.common_config.min_wager <= self.wager
                && self.wager <= game.common_config.max_wager),
            r is Err ==> r == Result::<(), BettingError>::Err(BettingError::InvalidArgument),
    {
        if !(matches!(game.game_type_config, GameTypeConfig::CoinFlip { .. }))
            || self.wager < game.common_config.min_wager
            || self.wager > game.common_config.max_wager {
            Err(BettingError::InvalidArgument)
        } else {
            Ok(())
        }
    }

    /// The bettor locks exactly the wager; fails unless the balance covers
    /// it.
    pub fn check_bettor_balance(&self, _game: &Game, user_account: &UserAccount) -> (r: Result<
        u64,
        BettingError,
    >)
        ensures
            r is Ok <==> self.wager <= user_account.current_lamports,
            r is Ok ==> r == Result::<u64, BettingError>::Ok(self.wager),
            r is Err ==> r == Result::<u64, BettingError>::Err(BettingError::InsufficientFunds),
    {
        if user_account.current_lamports >= self.wager {
            Ok(self.wager)
        } else {
            Err(BettingError::InsufficientFunds)
        }
    }

    /// The host locks the payout owed if the bettor wins; fails unless the
    /// host's balance covers it.
    pub fn check_host_balance(&self, game: &Game, user_account: &UserAccount) -> (r: Result<
        u64,
        BettingError,
    >)
        ensures
            game.game_type_config is CoinFlip ==> {
                let lock = coinflip_host_lock(
                    self.wager as int,
                    game.game_type_config->CoinFlip_config.payout_rate as int,
                );
                &&& (r is Ok <==> lock <= user_account.current_lamports)
                &&& (r is Ok ==> r->Ok_0 == lock)
                &&& (r is Err ==> r == Result::<u64, BettingError>::Err(
                    BettingError::InsufficientFunds,
                ))
            },
            !(game.game_type_config is CoinFlip) ==> r == Result::<u64, BettingError>::Err(
                BettingError::InvalidArgument,
            ),
    {
        if let GameTypeConfig::CoinFlip { config } = game.game_type_config {
            proof {
                vstd::arithmetic::mul::lemma_mul_upper_bound(
                    self.wager as int,
                    u64::MAX as int,
                    config.payout_rate as int,
                    u64::MAX as int,
                );
            }
            let payout_if_bettor_win: u128 = (self.wager as u128) * (config.payout_rate as u128)
                / (BASIS_POINTS as u128);
            if (user_account.current_lamports as u128) >= payout_if_bettor_win {
                Ok(payout_if_bettor_win as u64)
            } else {
                Err(BettingError::InsufficientFunds)
            }
        } else {
            Err(BettingError::InvalidArgument)
        }
    }
}

impl CoinFlipConfig {
    /// Whether the chosen side wins against a fulfilled bet's random value.
    fn bettor_wins(&self, side: CoinFlipSide, beta: &[u8; 64]) -> (w: bool)
        ensures
            w == coinflip_bettor_wins(
                side,
                self.host_probability_advantage as int,
                (rand_value_of(beta@) % 10000) as int,
            ),
    {
        let rand_number: u64 = (rand_number_from_beta(beta) % 10000) as u64;
        let advantage = self.host_probability_advantage;
        match side {
            CoinFlipSide::Head => advantage < 5000 && rand_number < 5000 - advantage,
            CoinFlipSide::Tail => advantage < 5000 && rand_number > 5000 + advantage,
        }
    }

    /// Applies the coin-flip rule to a fulfilled, unused bet record and
    /// yields the gains `(host, bettor)`: the whole escrow to the winner.
    pub fn process_vrf_result(&self, vrf_result: &VrfResult) -> (r: Result<
        (u64, u64),
        BettingError,
    >)
        requires
            vrf_result.locked_total() <= u64::MAX,
        ensures
            vrf_result.settle_guard() is Some ==> r == Result::<(u64, u64), BettingError>::Err(
                vrf_result.settle_guard()->0,
            ),
            vrf_result.settleable() && !(vrf_result.bet_input is CoinFlip) ==> r == Result::<
                (u64, u64),
                BettingError,
            >::Err(BettingError::InvalidArgument),
            vrf_result.settleable() && vrf_result.bet_input is CoinFlip ==> {
                let wins = coinflip_bettor_wins(
                    vrf_result.bet_input->CoinFlip_input.side,
                    self.host_probability_advantage as int,
                    (rand_value_of(vrf_result.beta@) % 10000) as int,
                );
                let total = vrf_result.locked_total() as u64;
                r == Result::<(u64, u64), BettingError>::Ok(
                    if wins {
                        (0u64, total)
                    } else {
                        (total, 0u64)
                    },
                )
            },
    {
        match vrf_result.check_vrf_result() {
            Err(e) => return Err(e),
            Ok(()) => (),
        }
        if let BetInput::CoinFlip { input } = vrf_result.bet_input {
            let total = vrf_result.locked_bettor_lamports + vrf_result.locked_host_lamports;
            if self.bettor_wins(input.side, &vrf_result.beta) {
                Ok((0, total))
            } else {
                Ok((total, 0))
            }
        } else {
            Err(BettingError::InvalidArgument)
        }
    }

    /// Resolves a fulfilled, unused coin-flip bet to the winner bit.
    pub fn resolve(&self, vrf_result: &VrfResult) -> (r: Result<bool, BettingError>)
        ensures
            vrf_result.settle_guard() is Some ==> r == Result::<bool, BettingError>::Err(
                vrf_result.settle_guard()->0,
            ),
            vrf_result.settleable() && !(vrf_result.bet_input is CoinFlip) ==> r == Result::<
                bool,
                BettingError,
            >::Err(BettingError::InvalidArgument),
            vrf_result.settleable() && vrf_result.bet_input is CoinFlip ==> r == Result::<
                bool,
                BettingError,
            >::Ok(
                coinflip_bettor_wins(
                    vrf_result.bet_input->CoinFlip_input.side,
                    self.host_probability_advantage as int,
                    (rand_value_of(vrf_result.beta@) % 10000) as int,
                ),
            ),
    {
        match vrf_result.check_vrf_result() {
            Err(e) => return Err(e),
            Ok(()) => (),
        }
        if let BetInput::CoinFlip { input } = vrf_result.bet_input {
            Ok(self.bettor_wins(input.side, &vrf_result.beta))
        } else {
            Err(BettingError::InvalidArgument)
        }
    }
}

} // verus!
