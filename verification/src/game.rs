//! The per-host game configuration record and the closed set of payout
//! rules. Every rule is one variant of `GameTypeConfig` / `BetInput`, with an
//! exhaustive match wherever a rule is applied, so a missing case cannot
//! compile.

use vstd::prelude::*;

use crate::account_type::StateAccountType;
use crate::coinflip::{coinflip_bettor_wins, coinflip_host_lock, CoinFlipConfig, CoinFlipInput};
use crate::crash::{crash_bettor_wins, crash_host_lock, CrashConfig, CrashInput};
use crate::error::BettingError;
use crate::identity::Identity;
use crate::randomness::rand_value_of;
use crate::user_account::UserAccount;
use crate::vrf_result::VrfResult;

verus! {

/// Wager bounds shared by every game type.
#[derive(Clone, Copy, Debug, PartialEq, Eq, Structural)]
pub struct CommonGameConfig {
    pub min_wager: u64,
    pub max_wager: u64,
}

/// The game-type tag and its per-type parameters.
#[derive(Clone, Copy, Debug, PartialEq, Eq, Structural)]
pub enum GameTypeConfig {
    CoinFlip { config: CoinFlipConfig },
    Crash { config: CrashConfig },
}

/// A bettor's wager together with its game-specific parameters.
#[derive(Clone, Copy, Debug, PartialEq, Eq, Structural)]
pub enum BetInput {
    CoinFlip { input: CoinFlipInput },
    Crash { input: CrashInput },
}

/// One host's game: liquidity counters, wager bounds, and the payout rule
/// it runs under.
#[derive(Clone, Debug)]
pub struct Game {
    pub account_type: StateAccountType,
    pub host: Identity,
    /// Hosts toggle this; an inactive game takes no new bets.
    pub is_active: bool,
    /// Bet records placed against this game and not yet settled.
    pub unresolved_vrf_result: u32,
    /// Total wagers ever locked into this game.
    pub total_lamports_in: u64,
    /// Total host liquidity ever paid out to winning bettors.
    pub total_lamports_out: u64,
    pub common_config: CommonGameConfig,
    pub game_type_config: GameTypeConfig,
}

impl Game {
    /// A freshly opened game: active, with no bets seen yet.
    pub fn new(host: Identity, min_wager: u64, max_wager: u64, game_type_config: GameTypeConfig) -> (r:
        Game)
        ensures
            r.account_type == StateAccountType::Game,
            r.host == host,
            r.is_active,
            r.unresolved_vrf_result == 0,
            r.total_lamports_in == 0,
            r.total_lamports_out == 0,
            r.common_config == (CommonGameConfig { min_wager, max_wager }),
            r.game_type_config == game_type_config,
    {
        Game {
            account_type: StateAccountType::Game,
            host,
            is_active: true,
            unresolved_vrf_result: 0,
            total_lamports_in: 0,
            total_lamports_out: 0,
            common_config: CommonGameConfig { min_wager, max_wager },
            game_type_config,
        }
    }
}

impl BetInput {
    /// The wager carried by the input, whatever its game type.
    pub open spec fn wager_spec(self) -> u64 {
        match self {
            BetInput::CoinFlip { input } => input.wager,
            BetInput::Crash { input } => input.wager,
        }
    }

    /// Whether this input is of the given configuration's game type.
    pub open spec fn matches_game_type(self, cfg: GameTypeConfig) -> bool {
        match (self, cfg) {
            (BetInput::CoinFlip { .. }, GameTypeConfig::CoinFlip { .. }) => true,
            (BetInput::Crash { .. }, GameTypeConfig::Crash { .. }) => true,
            _ => false,
        }
    }

    /// Whether a game accepts this input: right game type, wager inside the
    /// game's bounds.
    pub open spec fn valid_for(self, game: Game) -> bool {
        &&& self.matches_game_type(game.game_type_config)
        &&& game.common_config.min_wager <= self.wager_spec()
        &&& self.wager_spec() <= game.common_config.max_wager
    }

    /// What the host must lock against this input: the rule's worst-case
    /// payout. Meaningful only when the input matches the configuration's
    /// game type.
    pub open spec fn host_lock_spec(self, cfg: GameTypeConfig) -> int {
        match self {
            BetInput::CoinFlip { input } => match cfg {
                GameTypeConfig::CoinFlip { config } => coinflip_host_lock(
                    input.wager as int,
                    config.payout_rate as int,
                ),
                _ => arbitrary(),
            },
            BetInput::Crash { input } => crash_host_lock(
                input.wager as int,
                input.target_multiplier as int,
            ),
        }
    }

    /// Validates the input against a game, as the rule of the input's own
    /// type does.
    pub fn check_bet_input(&self, game: &Game) -> (r: Result<(), BettingError>)
        ensures
            r is Ok <==> self.valid_for(*game),
            r is Err ==> r == Result::<(), BettingError>::Err(BettingError::InvalidArgument),
    {
        match self {
            BetInput::CoinFlip { input } => input.check_bet_input(game),
            BetInput::Crash { input } => input.check_bet_input(game),
        }
    }

    /// Checks the bettor's balance covers the wager and returns the bettor's
    /// lock.
    pub fn check_bettor_balance(&self, game: &Game, user_account: &UserAccount) -> (r: Result<
        u64,
        BettingError,
    >)
        ensures
            r is Ok <==> self.wager_spec() <= user_account.current_lamports,
            r is Ok ==> r == Result::<u64, BettingError>::Ok(self.wager_spec()),
            r is Err ==> r == Result::<u64, BettingError>::Err(BettingError::InsufficientFunds),
    {
        match self {
            BetInput::CoinFlip { input } => input.check_bettor_balance(game, user_account),
            BetInput::Crash { input } => input.check_bettor_balance(game, user_account),
        }
    }

    /// Checks the host's balance covers the rule's worst-case payout and
    /// returns the host's lock.
    pub fn check_host_balance(&self, game: &Game, user_account: &UserAccount) -> (r: Result<
        u64,
        BettingError,
    >)
        ensures
            self is Crash || self.matches_game_type(game.game_type_config) ==> {
                &&& (r is Ok <==> self.host_lock_spec(game.game_type_config)
                    <= user_account.current_lamports)
                &&& (r is Ok ==> r->Ok_0 == self.host_lock_spec(game.game_type_config))
                &&& (r is Err ==> r == Result::<u64, BettingError>::Err(
                    BettingError::InsufficientFunds,
                ))
            },
            self is CoinFlip && !(game.game_type_config is CoinFlip) ==> r == Result::<
                u64,
                BettingError,
            >::Err(BettingError::InvalidArgument),
    {
        match self {
            BetInput::CoinFlip { input } => input.check_host_balance(game, user_account),
            BetInput::Crash { input } => input.check_host_balance(game, user_account),
        }
    }
}

impl GameTypeConfig {
    /// Who wins a fulfilled bet: a deterministic function of the random
    /// value alone, per the rule of this configuration's game type.
    /// Meaningful only when the input matches that type.
    pub open spec fn bettor_wins_spec(self, input: BetInput, beta: Seq<u8>) -> bool {
        match (self, input) {
            (GameTypeConfig::CoinFlip { config }, BetInput::CoinFlip { input }) => coinflip_bettor_wins(
                input.side,
                config.host_probability_advantage as int,
                (rand_value_of(beta) % 10000) as int,
            ),
            (GameTypeConfig::Crash { config }, BetInput::Crash { input }) => crash_bettor_wins(
                config.multiplier_straight_one_possibility as int,
                input.target_multiplier as int,
                rand_value_of(beta) as int,
            ),
            _ => arbitrary(),
        }
    }

    /// Applies the rule of this configuration's game type to a bet record,
    /// yielding the pair of gains `(host, bettor)`: the whole escrow to the
    /// winner.
    pub fn process_vrf_result(&self, vrf_result: &VrfResult) -> (r: Result<
        (u64, u64),
        BettingError,
    >)
        requires
            vrf_result.locked_total() <= u64::MAX,
        ensures
            vrf_result.settle_guard() is Some ==> r == Result::<(u64, u64), BettingError>::Err(
                vrf_result.settle_guard()->0,
            ),
            vrf_result.settleable() && !vrf_result.bet_input.matches_game_type(*self) ==> r
                == Result::<(u64, u64), BettingError>::Err(BettingError::InvalidArgument),
            vrf_result.settleable() && vrf_result.bet_input.matches_game_type(*self) ==> ({
                let wins = self.bettor_wins_spec(vrf_result.bet_input, vrf_result.beta@);
                let total = vrf_result.locked_total() as u64;
                r == Result::<(u64, u64), BettingError>::Ok(
                    if wins {
                        (0u64, total)
                    } else {
                        (total, 0u64)
                    },
                )
            }),
    {
        match self {
            GameTypeConfig::CoinFlip { config } => config.process_vrf_result(vrf_result),
            GameTypeConfig::Crash { config } => config.process_vrf_result(vrf_result),
        }
    }

    /// Resolves a fulfilled, unused bet record to the winner bit settlement
    /// acts on: `true` means the bettor takes the whole escrow.
    pub fn resolve(&self, vrf_result: &VrfResult) -> (r: Result<bool, BettingError>)
        ensures
            vrf_result.settle_guard() is Some ==> r == Result::<bool, BettingError>::Err(
                vrf_result.settle_guard()->0,
            ),
            vrf_result.settleable() && !vrf_result.bet_input.matches_game_type(*self) ==> r
                == Result::<bool, BettingError>::Err(BettingError::InvalidArgument),
            vrf_result.settleable() && vrf_result.bet_input.matches_game_type(*self) ==> r
                == Result::<bool, BettingError>::Ok(
                self.bettor_wins_spec(vrf_result.bet_input, vrf_result.beta@),
            ),
    {
        match self {
            GameTypeConfig::CoinFlip { config } => config.resolve(vrf_result),
            GameTypeConfig::Crash { config } => config.resolve(vrf_result),
        }
    }
}

} // verus!
