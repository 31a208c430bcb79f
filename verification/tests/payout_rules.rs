//! The payout rule set: input validation, balance checks, and outcome
//! computation for both game types.

use vrf_betting::coinflip::{CoinFlipConfig, CoinFlipInput, CoinFlipSide};
use vrf_betting::crash::{CrashConfig, CrashInput};
use vrf_betting::error::BettingError;
use vrf_betting::game::{BetInput, Game, GameTypeConfig};
use vrf_betting::identity::Identity;
use vrf_betting::user_account::UserAccount;
use vrf_betting::vrf_result::VrfResult;

#[test]
fn test_coinflip_check_bet_input() {
    let input = CoinFlipInput {
        wager: 2000,
        side: CoinFlipSide::Head,
    };
    let game = Game::new(
        Identity(1),
        1000,
        10000,
        GameTypeConfig::CoinFlip {
            config: CoinFlipConfig {
                host_probability_advantage: 100,
                payout_rate: 9900,
            },
        },
    );
    assert!(input.check_bet_input(&game).is_ok());

    // wrong game type
    let game = Game::new(
        Identity(2),
        1000,
        10000,
        GameTypeConfig::Crash {
            config: CrashConfig {
                multiplier_straight_one_possibility: 100,
            },
        },
    );
    assert!(matches!(input.check_bet_input(&game).unwrap_err(), BettingError::InvalidArgument));

    // less than min wager
    let game = Game::new(
        Identity(3),
        10000,
        100000,
        GameTypeConfig::Crash {
            config: CrashConfig {
                multiplier_straight_one_possibility: 100,
            },
        },
    );
    assert!(matches!(input.check_bet_input(&game).unwrap_err(), BettingError::InvalidArgument));

    // more than max wager
    let game = Game::new(
        Identity(4),
        100,
        1000,
        GameTypeConfig::Crash {
            config: CrashConfig {
                multiplier_straight_one_possibility: 100,
            },
        },
    );
    assert!(matches!(input.check_bet_input(&game).unwrap_err(), BettingError::InvalidArgument));
}

#[test]
fn test_coinflip_check_bettor_balance() {
    let input = CoinFlipInput {
        wager: 2000,
        side: CoinFlipSide::Head,
    };
    let game = Game::new(
        Identity(1),
        1000,
        10000,
        GameTypeConfig::CoinFlip {
            config: CoinFlipConfig {
                host_probability_advantage: 100,
                payout_rate: 9900,
            },
        },
    );
    let mut user_account = UserAccount::new(Identity(2), None, None);
    user_account.current_lamports = 5000;

    // ok
    assert_eq!(input.check_bettor_balance(&game, &user_account).unwrap(), 2000);

    // not enough money
    user_account.current_lamports = 1;
    assert!(matches!(
        input.check_bettor_balance(&game, &user_account).unwrap_err(),
        BettingError::InsufficientFunds
    ));
}

#[test]
fn test_coinflip_check_host_balance() {
    let input = CoinFlipInput {
        wager: 2000,
        side: CoinFlipSide::Head,
    };
    let game = Game::new(
        Identity(1),
        1000,
        10000,
        GameTypeConfig::CoinFlip {
            config: CoinFlipConfig {
                host_probability_advantage: 100,
                payout_rate: 9900,
            },
        },
    );
    let mut user_account = UserAccount::new(Identity(2), None, None);
    user_account.current_lamports = 5000;

    // ok
    assert_eq!(input.check_host_balance(&game, &user_account).unwrap(), 2000 * 9900 / 10000);
    // not enough money
    user_account.current_lamports = 1;
    assert!(matches!(
        input.check_host_balance(&game, &user_account).unwrap_err(),
        BettingError::InsufficientFunds
    ));
    // wrong game type
    let game = Game::new(
        Identity(3),
        1000,
        10000,
        GameTypeConfig::Crash {
            config: CrashConfig {
                multiplier_straight_one_possibility: 100,
            },
        },
    );
    assert!(matches!(
        input.check_host_balance(&game, &user_account).unwrap_err(),
        BettingError::InvalidArgument
    ));
}

#[test]
fn test_coinflip_process_vrf() {
    let game_config = CoinFlipConfig {
        host_probability_advantage: 100,
        payout_rate: 9900,
    };
    let mut vrf_result = VrfResult::new(
        Identity(1),
        Identity(2),
        0,
        [0; 72],
        2000,
        2000,
        BetInput::CoinFlip {
            input: CoinFlipInput {
                wager: 2000,
                side: CoinFlipSide::Head,
            },
        },
    );
    vrf_result.is_fullfilled = true;
    // bettor win head
    vrf_result.beta[0..16].copy_from_slice(&2000_u128.to_le_bytes());
    let (host_gain, bettor_gain) = game_config.process_vrf_result(&vrf_result).unwrap();
    assert_eq!(host_gain, 0);
    assert_eq!(bettor_gain, 4000);
    // bettor lose head with host probability advantage
    vrf_result.beta[0..16].copy_from_slice(&4901_u128.to_le_bytes());
    let (host_gain, bettor_gain) = game_config.process_vrf_result(&vrf_result).unwrap();
    assert_eq!(host_gain, 4000);
    assert_eq!(bettor_gain, 0);
    // bettor lose tail with host probability advantage
    vrf_result.bet_input = BetInput::CoinFlip {
        input: CoinFlipInput {
            wager: 2000,
            side: CoinFlipSide::Tail,
        },
    };
    vrf_result.beta[0..16].copy_from_slice(&5100_u128.to_le_bytes());
    let (host_gain, bettor_gain) = game_config.process_vrf_result(&vrf_result).unwrap();
    assert_eq!(host_gain, 4000);
    assert_eq!(bettor_gain, 0);
    // bettor win tail
    vrf_result.beta[0..16].copy_from_slice(&8000_u128.to_le_bytes());
    let (host_gain, bettor_gain) = game_config.process_vrf_result(&vrf_result).unwrap();
    assert_eq!(host_gain, 0);
    assert_eq!(bettor_gain, 4000);

    // wrong input type
    vrf_result.bet_input = BetInput::Crash {
        input: CrashInput {
            target_multiplier: 120,
            wager: 2000,
        },
    };
    assert!(matches!(
        game_config.process_vrf_result(&vrf_result).unwrap_err(),
        BettingError::InvalidArgument
    ));
}

#[test]
fn test_crash_check_bet_input() {
    let input = CrashInput {
        target_multiplier: 120,
        wager: 1000,
    };
    let game = Game::new(
        Identity(1),
        1000,
        10000,
        GameTypeConfig::Crash {
            config: CrashConfig {
                multiplier_straight_one_possibility: 100,
            },
        },
    );
    // ok
    assert!(input.check_bet_input(&game).is_ok());
    // wrong game type
    let game = Game::new(
        Identity(2),
        1000,
        10000,
        GameTypeConfig::CoinFlip {
            config: CoinFlipConfig {
                host_probability_advantage: 100,
                payout_rate: 9900,
            },
        },
    );
    assert!(matches!(input.check_bet_input(&game).unwrap_err(), BettingError::InvalidArgument));
    // wager too low
    let game = Game::new(
        Identity(3),
        10000,
        100000,
        GameTypeConfig::Crash {
            config: CrashConfig {
                multiplier_straight_one_possibility: 100,
            },
        },
    );
    assert!(matches!(input.check_bet_input(&game).unwrap_err(), BettingError::InvalidArgument));
    // wager too high
    let game = Game::new(
        Identity(4),
        10,
        100,
        GameTypeConfig::Crash {
            config: CrashConfig {
                multiplier_straight_one_possibility: 100,
            },
        },
    );
    assert!(matches!(input.check_bet_input(&game).unwrap_err(), BettingError::InvalidArgument));
}

#[test]
fn test_crash_check_bettor_balance() {
    let input = CrashInput {
        target_multiplier: 120,
        wager: 1000,
    };
    let game = Game::new(
        Identity(1),
        1000,
        10000,
        GameTypeConfig::Crash {
            config: CrashConfig {
                multiplier_straight_one_possibility: 100,
            },
        },
    );
    let mut user_account = UserAccount::new(Identity(2), None, None);
    user_account.current_lamports = 5000;

    // ok
    assert_eq!(input.check_bettor_balance(&game, &user_account).unwrap(), 1000);
    // not enough money
    user_account.current_lamports = 1;
    assert!(matches!(
        input.check_bettor_balance(&game, &user_account).unwrap_err(),
        BettingError::InsufficientFunds
    ));
}

#[test]
fn test_crash_check_host_balance() {
    let input = CrashInput {
        target_multiplier: 120,
        wager: 1000,
    };
    let game = Game::new(
        Identity(1),
        1000,
        10000,
        GameTypeConfig::Crash {
            config: CrashConfig {
                multiplier_straight_one_possibility: 100,
            },
        },
    );
    let mut user_account = UserAccount::new(Identity(2), None, None);
    user_account.current_lamports = 5000;

    // ok
    assert_eq!(input.check_host_balance(&game, &user_account).unwrap(), 1200);
    // not enough money
    user_account.current_lamports = 1;
    assert!(matches!(
        input.check_host_balance(&game, &user_account).unwrap_err(),
        BettingError::InsufficientFunds
    ));
}

#[test]
fn test_crash_process_vrf() {
    let game_config = CrashConfig {
        multiplier_straight_one_possibility: 100,
    };
    let mut vrf_result = VrfResult::new(
        Identity(1),
        Identity(2),
        0,
        [0; 72],
        1000,
        1200,
        BetInput::Crash {
            input: CrashInput {
                target_multiplier: 120,
                wager: 1000,
            },
        },
    );
    vrf_result.is_fullfilled = true;

    // target multiplier hit: the bettor takes the whole escrow
    vrf_result.beta[0..16].copy_from_slice(&(u64::MAX as u128 / 2).to_le_bytes());
    let (host_gain, bettor_gain) = game_config.process_vrf_result(&vrf_result).unwrap();
    assert_eq!(host_gain, 0);
    assert_eq!(bettor_gain, 2200);
    // target multiplier miss
    vrf_result.beta[0..16].copy_from_slice(&(u64::MAX as u128 / 100).to_le_bytes());
    let (host_gain, bettor_gain) = game_config.process_vrf_result(&vrf_result).unwrap();
    assert_eq!(host_gain, 2200);
    assert_eq!(bettor_gain, 0);
    // wrong input type
    let mut vrf_result = VrfResult::new(
        Identity(3),
        Identity(4),
        0,
        [0; 72],
        1000,
        1200,
        BetInput::CoinFlip {
            input: CoinFlipInput {
                wager: 1000,
                side: CoinFlipSide::Head,
            },
        },
    );
    vrf_result.is_fullfilled = true;
    assert!(matches!(
        game_config.process_vrf_result(&vrf_result).unwrap_err(),
        BettingError::InvalidArgument
    ));
}
