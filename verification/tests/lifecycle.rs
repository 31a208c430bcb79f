//! The full bet lifecycle against the operations: placement, fulfillment,
//! settlement, marking, and closing, with the conservation and
//! once-and-only-once guarantees exercised on concrete runs.

use vrf_betting::bet_ops::{
    game_place_bet, game_resolve_vrf_result, vrf_result_close, vrf_result_fullfill,
    vrf_result_mark_close, GamePlaceBetArgs, VrfResultFullfillArgs,
};
use vrf_betting::coinflip::{CoinFlipConfig, CoinFlipInput, CoinFlipSide};
use vrf_betting::crash::{CrashConfig, CrashInput};
use vrf_betting::error::BettingError;
use vrf_betting::game::{BetInput, Game, GameTypeConfig};
use vrf_betting::identity::Identity;
use vrf_betting::stats::Stats;
use vrf_betting::user_account::UserAccount;
use vrf_betting::vrf_result::VrfResult;

const BETTOR: Identity = Identity(10);
const HOST: Identity = Identity(20);
const OPERATOR: Identity = Identity(30);
const GAME_ADDR: Identity = Identity(40);

fn coinflip_game() -> Game {
    Game::new(
        HOST,
        1000,
        10000,
        GameTypeConfig::CoinFlip {
            config: CoinFlipConfig {
                host_probability_advantage: 100,
                payout_rate: 9900,
            },
        },
    )
}

fn funded_user(authority: Identity, lamports: u64) -> UserAccount {
    let mut user = UserAccount::new(authority, None, None);
    user.current_lamports = lamports;
    user
}

fn beta_args(value: u128) -> VrfResultFullfillArgs {
    let mut beta = [0u8; 64];
    beta[0..16].copy_from_slice(&value.to_le_bytes());
    VrfResultFullfillArgs { beta, pi: [0; 80] }
}

fn coinflip_bet(side: CoinFlipSide, wager: u64) -> GamePlaceBetArgs {
    GamePlaceBetArgs {
        bet_input: BetInput::CoinFlip {
            input: CoinFlipInput { wager, side },
        },
    }
}

#[test]
fn place_bet_locks_both_sides() {
    let mut bettor_user = funded_user(BETTOR, 5000);
    let mut host_user = funded_user(HOST, 50000);
    let mut game = coinflip_game();
    let mut stats = Stats::new();

    let vrf = game_place_bet(
        BETTOR,
        GAME_ADDR,
        &mut bettor_user,
        &mut host_user,
        &mut game,
        &mut stats,
        [7; 72],
        coinflip_bet(CoinFlipSide::Head, 2000),
    )
    .unwrap();

    assert_eq!(vrf.locked_bettor_lamports, 2000);
    assert_eq!(vrf.locked_host_lamports, 1980); // 2000 * 9900 / 10000
    assert_eq!(vrf.owner, BETTOR);
    assert_eq!(vrf.game, GAME_ADDR);
    assert_eq!(vrf.bet_id, 0);
    assert_eq!(vrf.alpha, [7; 72]);
    assert!(!vrf.is_fullfilled);
    assert!(!vrf.is_used);
    assert!(!vrf.marked_for_close);
    assert_eq!(vrf.beta, [0u8; 64]);
    assert_eq!(vrf.pi, [0u8; 80]);
    assert_eq!(bettor_user.current_lamports, 3000);
    assert_eq!(bettor_user.total_bets, 1);
    assert_eq!(bettor_user.active_vrf_results, 1);
    assert_eq!(host_user.current_lamports, 48020);
    assert_eq!(game.unresolved_vrf_result, 1);
    assert_eq!(game.total_lamports_in, 2000);
    assert_eq!(stats.total_bets, 1);
    assert_eq!(stats.total_wager, 2000);
}

#[test]
fn place_bet_guards() {
    let mut bettor_user = funded_user(BETTOR, 5000);
    let mut host_user = funded_user(HOST, 50000);
    let mut game = coinflip_game();
    let mut stats = Stats::new();

    // wrong caller for the bettor account
    let r = game_place_bet(
        Identity(99),
        GAME_ADDR,
        &mut bettor_user,
        &mut host_user,
        &mut game,
        &mut stats,
        [0; 72],
        coinflip_bet(CoinFlipSide::Head, 2000),
    );
    assert!(matches!(r.unwrap_err(), BettingError::WrongPubkey));

    // a host account that does not belong to the game's host
    let mut stranger = funded_user(Identity(77), 50000);
    let r = game_place_bet(
        BETTOR,
        GAME_ADDR,
        &mut bettor_user,
        &mut stranger,
        &mut game,
        &mut stats,
        [0; 72],
        coinflip_bet(CoinFlipSide::Head, 2000),
    );
    assert!(matches!(r.unwrap_err(), BettingError::WrongPubkey));

    // inactive game
    game.is_active = false;
    let r = game_place_bet(
        BETTOR,
        GAME_ADDR,
        &mut bettor_user,
        &mut host_user,
        &mut game,
        &mut stats,
        [0; 72],
        coinflip_bet(CoinFlipSide::Head, 2000),
    );
    assert!(matches!(r.unwrap_err(), BettingError::GameNotActive));
    game.is_active = true;

    // wager outside the bounds
    let r = game_place_bet(
        BETTOR,
        GAME_ADDR,
        &mut bettor_user,
        &mut host_user,
        &mut game,
        &mut stats,
        [0; 72],
        coinflip_bet(CoinFlipSide::Head, 100),
    );
    assert!(matches!(r.unwrap_err(), BettingError::InvalidArgument));

    // bettor cannot cover the wager
    let r = game_place_bet(
        BETTOR,
        GAME_ADDR,
        &mut bettor_user,
        &mut host_user,
        &mut game,
        &mut stats,
        [0; 72],
        coinflip_bet(CoinFlipSide::Head, 6000),
    );
    assert!(matches!(r.unwrap_err(), BettingError::InsufficientFunds));

    // host cannot cover the payout
    host_user.current_lamports = 10;
    let r = game_place_bet(
        BETTOR,
        GAME_ADDR,
        &mut bettor_user,
        &mut host_user,
        &mut game,
        &mut stats,
        [0; 72],
        coinflip_bet(CoinFlipSide::Head, 2000),
    );
    assert!(matches!(r.unwrap_err(), BettingError::InsufficientFunds));

    // a refused placement changed nothing
    assert_eq!(bettor_user.current_lamports, 5000);
    assert_eq!(bettor_user.total_bets, 0);
    assert_eq!(game.unresolved_vrf_result, 0);
    assert_eq!(stats.total_bets, 0);
}

#[test]
fn fulfill_then_settle_coinflip_bettor_wins() {
    let mut bettor_user = funded_user(BETTOR, 5000);
    let mut host_user = funded_user(HOST, 50000);
    let mut game = coinflip_game();
    let mut stats = Stats::new();

    let mut vrf = game_place_bet(
        BETTOR,
        GAME_ADDR,
        &mut bettor_user,
        &mut host_user,
        &mut game,
        &mut stats,
        [0; 72],
        coinflip_bet(CoinFlipSide::Head, 2000),
    )
    .unwrap();

    // a reduced random number of 2000 < 5000 - 100 wins for Head
    vrf_result_fullfill(OPERATOR, OPERATOR, &mut vrf, beta_args(2000)).unwrap();
    assert!(vrf.is_fullfilled);

    let total_before = bettor_user.current_lamports + host_user.current_lamports;
    let won = game_resolve_vrf_result(
        GAME_ADDR,
        &mut game,
        &mut vrf,
        &mut host_user,
        &mut bettor_user,
        &mut stats,
    )
    .unwrap();
    assert!(won);
    assert!(vrf.is_used);
    // the winner got exactly both locked amounts: 2000 + 1980
    assert_eq!(bettor_user.current_lamports, 3000 + 3980);
    assert_eq!(host_user.current_lamports, 48020);
    // conservation: settlement released exactly what placement locked
    assert_eq!(
        bettor_user.current_lamports + host_user.current_lamports,
        total_before + 3980
    );
    assert_eq!(game.unresolved_vrf_result, 0);
    assert_eq!(game.total_lamports_out, 1980);
    assert_eq!(stats.total_lamports_won_by_bettors, 1980);
}

#[test]
fn fulfill_then_settle_coinflip_host_wins() {
    let mut bettor_user = funded_user(BETTOR, 5000);
    let mut host_user = funded_user(HOST, 50000);
    let mut game = coinflip_game();
    let mut stats = Stats::new();

    let mut vrf = game_place_bet(
        BETTOR,
        GAME_ADDR,
        &mut bettor_user,
        &mut host_user,
        &mut game,
        &mut stats,
        [0; 72],
        coinflip_bet(CoinFlipSide::Head, 2000),
    )
    .unwrap();

    // 4901 falls in the dead zone starting at 5000 - 100: the host wins
    vrf_result_fullfill(OPERATOR, OPERATOR, &mut vrf, beta_args(4901)).unwrap();
    let won = game_resolve_vrf_result(
        GAME_ADDR,
        &mut game,
        &mut vrf,
        &mut host_user,
        &mut bettor_user,
        &mut stats,
    )
    .unwrap();
    assert!(!won);
    assert_eq!(bettor_user.current_lamports, 3000);
    assert_eq!(host_user.current_lamports, 48020 + 3980);
    assert_eq!(game.total_lamports_out, 0);
    assert_eq!(stats.total_lamports_won_by_bettors, 0);
}

#[test]
fn settle_crash_target_reached() {
    let mut bettor_user = funded_user(BETTOR, 5000);
    let mut host_user = funded_user(HOST, 50000);
    let mut game = Game::new(
        HOST,
        100,
        10000,
        GameTypeConfig::Crash {
            config: CrashConfig {
                multiplier_straight_one_possibility: 100,
            },
        },
    );
    let mut stats = Stats::new();

    let mut vrf = game_place_bet(
        BETTOR,
        GAME_ADDR,
        &mut bettor_user,
        &mut host_user,
        &mut game,
        &mut stats,
        [0; 72],
        GamePlaceBetArgs {
            bet_input: BetInput::Crash {
                input: CrashInput {
                    target_multiplier: 120,
                    wager: 1000,
                },
            },
        },
    )
    .unwrap();
    // host locks floor(1000 * 120 / 100)
    assert_eq!(vrf.locked_host_lamports, 1200);
    assert_eq!(host_user.current_lamports, 48800);

    // this random value realizes a multiplier of 1.98, past the 1.20 target
    vrf_result_fullfill(OPERATOR, OPERATOR, &mut vrf, beta_args(u64::MAX as u128 / 2)).unwrap();
    let won = game_resolve_vrf_result(
        GAME_ADDR,
        &mut game,
        &mut vrf,
        &mut host_user,
        &mut bettor_user,
        &mut stats,
    )
    .unwrap();
    assert!(won);
    // the bettor gains the whole escrow: 1000 + 1200
    assert_eq!(bettor_user.current_lamports, 4000 + 2200);
    assert_eq!(host_user.current_lamports, 48800);
}

#[test]
fn settle_crash_target_missed() {
    let mut bettor_user = funded_user(BETTOR, 5000);
    let mut host_user = funded_user(HOST, 50000);
    let mut game = Game::new(
        HOST,
        100,
        10000,
        GameTypeConfig::Crash {
            config: CrashConfig {
                multiplier_straight_one_possibility: 100,
            },
        },
    );
    let mut stats = Stats::new();

    let mut vrf = game_place_bet(
        BETTOR,
        GAME_ADDR,
        &mut bettor_user,
        &mut host_user,
        &mut game,
        &mut stats,
        [0; 72],
        GamePlaceBetArgs {
            bet_input: BetInput::Crash {
                input: CrashInput {
                    target_multiplier: 120,
                    wager: 1000,
                },
            },
        },
    )
    .unwrap();

    // this random value realizes a multiplier of about 1.01, below 1.20
    vrf_result_fullfill(OPERATOR, OPERATOR, &mut vrf, beta_args(u64::MAX as u128 / 100)).unwrap();
    let won = game_resolve_vrf_result(
        GAME_ADDR,
        &mut game,
        &mut vrf,
        &mut host_user,
        &mut bettor_user,
        &mut stats,
    )
    .unwrap();
    assert!(!won);
    // the host gains the whole escrow: 1000 + 1200
    assert_eq!(host_user.current_lamports, 48800 + 2200);
    assert_eq!(bettor_user.current_lamports, 4000);
}

#[test]
fn settle_twice_fails_and_changes_nothing() {
    let mut bettor_user = funded_user(BETTOR, 5000);
    let mut host_user = funded_user(HOST, 50000);
    let mut game = coinflip_game();
    let mut stats = Stats::new();

    let mut vrf = game_place_bet(
        BETTOR,
        GAME_ADDR,
        &mut bettor_user,
        &mut host_user,
        &mut game,
        &mut stats,
        [0; 72],
        coinflip_bet(CoinFlipSide::Head, 2000),
    )
    .unwrap();
    vrf_result_fullfill(OPERATOR, OPERATOR, &mut vrf, beta_args(2000)).unwrap();
    game_resolve_vrf_result(
        GAME_ADDR,
        &mut game,
        &mut vrf,
        &mut host_user,
        &mut bettor_user,
        &mut stats,
    )
    .unwrap();
    let bettor_after = bettor_user.current_lamports;
    let host_after = host_user.current_lamports;

    // the second settlement is refused and balances change only once
    let r = game_resolve_vrf_result(
        GAME_ADDR,
        &mut game,
        &mut vrf,
        &mut host_user,
        &mut bettor_user,
        &mut stats,
    );
    assert!(matches!(r.unwrap_err(), BettingError::VrfResultAlreadyUsed));
    assert_eq!(bettor_user.current_lamports, bettor_after);
    assert_eq!(host_user.current_lamports, host_after);
    assert_eq!(stats.total_lamports_won_by_bettors, 1980);
}

#[test]
fn settle_pending_bet_fails() {
    let mut bettor_user = funded_user(BETTOR, 5000);
    let mut host_user = funded_user(HOST, 50000);
    let mut game = coinflip_game();
    let mut stats = Stats::new();

    let mut vrf = game_place_bet(
        BETTOR,
        GAME_ADDR,
        &mut bettor_user,
        &mut host_user,
        &mut game,
        &mut stats,
        [0; 72],
        coinflip_bet(CoinFlipSide::Head, 2000),
    )
    .unwrap();
    let r = game_resolve_vrf_result(
        GAME_ADDR,
        &mut game,
        &mut vrf,
        &mut host_user,
        &mut bettor_user,
        &mut stats,
    );
    assert!(matches!(r.unwrap_err(), BettingError::VrfResultNotFullfilled));
    assert!(!vrf.is_used);
}

#[test]
fn settle_mismatched_records_fails() {
    let mut bettor_user = funded_user(BETTOR, 5000);
    let mut host_user = funded_user(HOST, 50000);
    let mut game = coinflip_game();
    let mut stats = Stats::new();

    let mut vrf = game_place_bet(
        BETTOR,
        GAME_ADDR,
        &mut bettor_user,
        &mut host_user,
        &mut game,
        &mut stats,
        [0; 72],
        coinflip_bet(CoinFlipSide::Head, 2000),
    )
    .unwrap();
    vrf_result_fullfill(OPERATOR, OPERATOR, &mut vrf, beta_args(2000)).unwrap();

    // a different game record than the bet names
    let r = game_resolve_vrf_result(
        Identity(41),
        &mut game,
        &mut vrf,
        &mut host_user,
        &mut bettor_user,
        &mut stats,
    );
    assert!(matches!(r.unwrap_err(), BettingError::WrongPubkey));

    // a bettor account that does not own the bet
    let mut stranger = funded_user(Identity(77), 0);
    let r = game_resolve_vrf_result(
        GAME_ADDR,
        &mut game,
        &mut vrf,
        &mut host_user,
        &mut stranger,
        &mut stats,
    );
    assert!(matches!(r.unwrap_err(), BettingError::WrongPubkey));
}

#[test]
fn fulfill_twice_fails() {
    let mut vrf = VrfResult::new(
        BETTOR,
        GAME_ADDR,
        0,
        [0; 72],
        2000,
        1980,
        BetInput::CoinFlip {
            input: CoinFlipInput {
                wager: 2000,
                side: CoinFlipSide::Head,
            },
        },
    );
    vrf_result_fullfill(OPERATOR, OPERATOR, &mut vrf, beta_args(1)).unwrap();
    let r = vrf_result_fullfill(OPERATOR, OPERATOR, &mut vrf, beta_args(2));
    assert!(matches!(r.unwrap_err(), BettingError::VrfResultAlreadyFullfilled));
    // the stored randomness is the first delivery
    assert_eq!(vrf.beta[0], 1);
}

#[test]
fn fulfill_needs_the_operator() {
    let mut vrf = VrfResult::new(
        BETTOR,
        GAME_ADDR,
        0,
        [0; 72],
        2000,
        1980,
        BetInput::CoinFlip {
            input: CoinFlipInput {
                wager: 2000,
                side: CoinFlipSide::Head,
            },
        },
    );
    let r = vrf_result_fullfill(Identity(99), OPERATOR, &mut vrf, beta_args(1));
    assert!(matches!(r.unwrap_err(), BettingError::WrongPubkey));
    assert!(!vrf.is_fullfilled);
}

#[test]
fn fulfill_settled_bet_fails() {
    let mut vrf = VrfResult::new(
        BETTOR,
        GAME_ADDR,
        0,
        [0; 72],
        2000,
        1980,
        BetInput::CoinFlip {
            input: CoinFlipInput {
                wager: 2000,
                side: CoinFlipSide::Head,
            },
        },
    );
    vrf.is_used = true;
    let r = vrf_result_fullfill(OPERATOR, OPERATOR, &mut vrf, beta_args(1));
    assert!(matches!(r.unwrap_err(), BettingError::VrfResultAlreadyUsed));
}

#[test]
fn mark_close_only_by_owner() {
    let mut vrf = VrfResult::new(
        BETTOR,
        GAME_ADDR,
        0,
        [0; 72],
        2000,
        1980,
        BetInput::CoinFlip {
            input: CoinFlipInput {
                wager: 2000,
                side: CoinFlipSide::Head,
            },
        },
    );
    let r = vrf_result_mark_close(Identity(99), &mut vrf);
    assert!(matches!(r.unwrap_err(), BettingError::NoAuthority));
    assert!(!vrf.marked_for_close);

    vrf_result_mark_close(BETTOR, &mut vrf).unwrap();
    assert!(vrf.marked_for_close);
}

#[test]
fn close_bet_needs_marked_fulfilled_and_used() {
    let mut bettor_user = funded_user(BETTOR, 0);
    bettor_user.active_vrf_results = 1;
    let mut vrf = VrfResult::new(
        BETTOR,
        GAME_ADDR,
        0,
        [0; 72],
        2000,
        1980,
        BetInput::CoinFlip {
            input: CoinFlipInput {
                wager: 2000,
                side: CoinFlipSide::Head,
            },
        },
    );

    // not marked
    let r = vrf_result_close(&vrf, BETTOR, &mut bettor_user);
    assert!(matches!(r.unwrap_err(), BettingError::VrfResultNotMarkedForClose));

    // marked but not fulfilled
    vrf.marked_for_close = true;
    let r = vrf_result_close(&vrf, BETTOR, &mut bettor_user);
    assert!(matches!(r.unwrap_err(), BettingError::VrfResultNotFullfilled));

    // marked and fulfilled but not used
    vrf.is_fullfilled = true;
    let r = vrf_result_close(&vrf, BETTOR, &mut bettor_user);
    assert!(matches!(r.unwrap_err(), BettingError::VrfResultNotUsed));

    // the wrong caller is refused even on a fully spent record
    vrf.is_used = true;
    let r = vrf_result_close(&vrf, Identity(99), &mut bettor_user);
    assert!(matches!(r.unwrap_err(), BettingError::WrongPubkey));
    assert_eq!(bettor_user.active_vrf_results, 1);

    // all three flags and the owner: the record may go
    vrf_result_close(&vrf, BETTOR, &mut bettor_user).unwrap();
    assert_eq!(bettor_user.active_vrf_results, 0);
}
