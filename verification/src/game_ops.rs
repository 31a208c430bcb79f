//! Game registry operations: opening a game, toggling it, and closing it.

use vstd::prelude::*;

use crate::account_type::StateAccountType;
use crate::error::BettingError;
use crate::game::{CommonGameConfig, Game, GameTypeConfig};
use crate::identity::Identity;
use crate::stats::Stats;
use crate::user_account::UserAccount;

verus! {

/// What a game-creation request carries.
#[derive(Clone, Copy, Debug)]
pub struct GameCreateArgs {
    pub common_config: CommonGameConfig,
    pub game_type_config: GameTypeConfig,
}

/// What an activation toggle carries.
#[derive(Clone, Copy, Debug)]
pub struct GameSetActiveArgs {
    pub is_active: bool,
}

/// Opens a game for a registered host: a fresh active game record, one more
/// hosted game on the host's account, one more game in the global aggregate.
pub fn game_create(
    host: Identity,
    host_user_account: &mut UserAccount,
    stats: &mut Stats,
    args: GameCreateArgs,
) -> (r: Result<Game, BettingError>)
    requires
        host == old(host_user_account).authority ==> {
            &&& old(host_user_account).games_hosted < u32::MAX
            &&& old(stats).total_games < u64::MAX
        },
    ensures
        host != old(host_user_account).authority ==> r == Result::<Game, BettingError>::Err(
            BettingError::WrongPubkey,
        ) && *final(host_user_account) == *old(host_user_account) && *final(stats) == *old(stats),
        host == old(host_user_account).authority ==> {
            &&& r is Ok
            &&& r->Ok_0.account_type == StateAccountType::Game
            &&& r->Ok_0.host == host
            &&& r->Ok_0.is_active
            &&& r->Ok_0.unresolved_vrf_result == 0
            &&& r->Ok_0.total_lamports_in == 0
            &&& r->Ok_0.total_lamports_out == 0
            &&& r->Ok_0.common_config == args.common_config
            &&& r->Ok_0.game_type_config == args.game_type_config
            &&& *final(host_user_account) == (UserAccount {
                games_hosted: (old(host_user_account).games_hosted + 1) as u32,
                ..*old(host_user_account)
            })
            &&& *final(stats) == (Stats {
                total_games: (old(stats).total_games + 1) as u64,
                ..*old(stats)
            })
        },
{
    if host != host_user_account.authority {
        return Err(BettingError::WrongPubkey);
    }
    host_user_account.games_hosted = host_user_account.games_hosted + 1;
    stats.total_games = stats.total_games + 1;
    Ok(Game::new(host, args.common_config.min_wager, args.common_config.max_wager, args.game_type_config))
}

/// Toggles whether a game takes new bets; only its host may.
pub fn game_set_active(game: &mut Game, caller: Identity, args: GameSetActiveArgs) -> (r: Result<
    (),
    BettingError,
>)
    ensures
        r is Ok <==> caller == old(game).host,
        caller != old(game).host ==> r == Result::<(), BettingError>::Err(BettingError::NoAuthority)
            && *final(game) == *old(game),
        caller == old(game).host ==> *final(game) == (Game {
            is_active: args.is_active,
            ..*old(game)
        }),
{
    if caller != game.host {
        return Err(BettingError::NoAuthority);
    }
    game.is_active = args.is_active;
    Ok(())
}

/// Why closing a game would be refused, if it would be: the caller must own
/// the supplied host account, must be the game's host, and every bet against
/// the game must be settled.
pub open spec fn game_close_guard(
    game: Game,
    host_user_account: UserAccount,
    caller: Identity,
) -> Option<BettingError> {
    if caller != host_user_account.authority {
        Some(BettingError::WrongPubkey)
    } else if caller != game.host {
        Some(BettingError::NoAuthority)
    } else if game.unresolved_vrf_result > 0 {
        Some(BettingError::GameNotSettled)
    } else {
        None
    }
}

/// Approves destroying a game record and books it off the host's account and
/// the global aggregate. The record itself is destroyed by the record store
/// once this succeeds.
pub fn game_close(
    game: &Game,
    host_user_account: &mut UserAccount,
    stats: &mut Stats,
    caller: Identity,
) -> (r: Result<(), BettingError>)
    requires
        game_close_guard(*game, *old(host_user_account), caller) is None ==> {
            &&& old(host_user_account).games_hosted >= 1
            &&& old(stats).total_games >= 1
        },
    ensures
        r is Ok <==> (caller == old(host_user_account).authority && caller == game.host
            && game.unresolved_vrf_result == 0),
        game_close_guard(*game, *old(host_user_account), caller) matches Some(e) ==> r == Result::<
            (),
            BettingError,
        >::Err(e) && *final(host_user_account) == *old(host_user_account) && *final(stats) == *old(
            stats,
        ),
        game_close_guard(*game, *old(host_user_account), caller) is None ==> {
            &&& *final(host_user_account) == (UserAccount {
                games_hosted: (old(host_user_account).games_hosted - 1) as u32,
                ..*old(host_user_account)
            })
            &&& *final(stats) == (Stats {
                total_games: (old(stats).total_games - 1) as u64,
                ..*old(stats)
            })
        },
{
    if caller != host_user_account.authority {
        return Err(BettingError::WrongPubkey);
    }
    if caller != game.host {
        return Err(BettingError::NoAuthority);
    }
    if game.unresolved_vrf_result > 0 {
        return Err(BettingError::GameNotSettled);
    }
    host_user_account.games_hosted = host_user_account.games_hosted - 1;
    stats.total_games = stats.total_games - 1;
    Ok(())
}

} // verus!
