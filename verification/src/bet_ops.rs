//! The bet lifecycle: placement locks both sides' funds into an escrow
//! record, fulfillment attaches the randomness producer's output, settlement
//! releases the whole escrow to the winner exactly once, and the owner then
//! marks and closes the spent record.

use vstd::prelude::*;

use crate::error::BettingError;
use crate::game::{BetInput, Game};
use crate::identity::Identity;
use crate::stats::Stats;
use crate::user_account::UserAccount;
use crate::vrf_result::VrfResult;

verus! {

/// What a bet placement carries.
#[derive(Clone, Copy, Debug)]
pub struct GamePlaceBetArgs {
    pub bet_input: BetInput,
}

/// What a fulfillment carries: the randomness producer's output and proof.
#[derive(Clone, Copy, Debug)]
pub struct VrfResultFullfillArgs {
    pub beta: [u8; 64],
    pub pi: [u8; 80],
}

/// Why placing a bet would be refused, if it would be: the caller must own
/// the bettor account, the host account must belong to the game's host, the
/// game must be active, the input must fit the game, and both sides' balances
/// must cover their locks.
pub open spec fn place_bet_guard(
    bettor: Identity,
    bettor_user_account: UserAccount,
    host_user_account: UserAccount,
    game: Game,
    input: BetInput,
) -> Option<BettingError> {
    if bettor != bettor_user_account.authority {
        Some(BettingError::WrongPubkey)
    } else if host_user_account.authority != game.host {
        Some(BettingError::WrongPubkey)
    } else if !game.is_active {
        Some(BettingError::GameNotActive)
    } else if !input.valid_for(game) {
        Some(BettingError::InvalidArgument)
    } else if bettor_user_account.current_lamports < input.wager_spec() {
        Some(BettingError::InsufficientFunds)
    } else if host_user_account.current_lamports < input.host_lock_spec(game.game_type_config) {
        Some(BettingError::InsufficientFunds)
    } else {
        None
    }
}

/// Places a bet: validates the input against the game, locks the wager out of
/// the bettor's balance and the rule's worst-case payout out of the host's,
/// and returns the Pending escrow record to be stored. `game_address` is the
/// game record's verified address, `alpha` the seed material the caller
/// assembled for the randomness producer.
pub fn game_place_bet(
    bettor: Identity,
    game_address: Identity,
    bettor_user_account: &mut UserAccount,
    host_user_account: &mut UserAccount,
    game: &mut Game,
    stats: &mut Stats,
    alpha: [u8; 72],
    args: GamePlaceBetArgs,
) -> (r: Result<VrfResult, BettingError>)
    requires
        place_bet_guard(
            bettor,
            *old(bettor_user_account),
            *old(host_user_account),
            *old(game),
            args.bet_input,
        ) is None ==> {
            &&& old(bettor_user_account).total_bets < u32::MAX
            &&& old(bettor_user_account).active_vrf_results < u32::MAX
            &&& old(stats).total_bets < u32::MAX
            &&& old(stats).total_wager + args.bet_input.wager_spec() <= u64::MAX
            &&& old(game).unresolved_vrf_result < u32::MAX
            &&& old(game).total_lamports_in + args.bet_input.wager_spec() <= u64::MAX
        },
    ensures
        place_bet_guard(
            bettor,
            *old(bettor_user_account),
            *old(host_user_account),
            *old(game),
            args.bet_input,
        ) matches Some(e) ==> {
            &&& r == Result::<VrfResult, BettingError>::Err(e)
            &&& *final(bettor_user_account) == *old(bettor_user_account)
            &&& *final(host_user_account) == *old(host_user_account)
            &&& *final(game) == *old(game)
            &&& *final(stats) == *old(stats)
        },
        place_bet_guard(
            bettor,
            *old(bettor_user_account),
            *old(host_user_account),
            *old(game),
            args.bet_input,
        ) is None ==> ({
            let wager = args.bet_input.wager_spec();
            let host_lock = args.bet_input.host_lock_spec(old(game).game_type_config);
            &&& r is Ok
            &&& r->Ok_0.account_type == crate::account_type::StateAccountType::Vrf
            &&& !r->Ok_0.is_fullfilled
            &&& !r->Ok_0.is_used
            &&& !r->Ok_0.marked_for_close
            &&& r->Ok_0.owner == bettor
            &&& r->Ok_0.game == game_address
            &&& r->Ok_0.bet_id == old(bettor_user_account).total_bets
            &&& r->Ok_0.alpha == alpha
            &&& forall|i: int| 0 <= i < 64 ==> r->Ok_0.beta@[i] == 0
            &&& forall|i: int| 0 <= i < 80 ==> r->Ok_0.pi@[i] == 0
            &&& r->Ok_0.locked_bettor_lamports == wager
            &&& r->Ok_0.locked_host_lamports == host_lock
            &&& r->Ok_0.bet_input == args.bet_input
            &&& *final(bettor_user_account) == (UserAccount {
                total_bets: (old(bettor_user_account).total_bets + 1) as u32,
                active_vrf_results: (old(bettor_user_account).active_vrf_results + 1) as u32,
                current_lamports: (old(bettor_user_account).current_lamports - wager) as u64,
                ..*old(bettor_user_account)
            })
            &&& *final(host_user_account) == (UserAccount {
                current_lamports: (old(host_user_account).current_lamports - host_lock) as u64,
                ..*old(host_user_account)
            })
            &&& *final(game) == (Game {
                unresolved_vrf_result: (old(game).unresolved_vrf_result + 1) as u32,
                total_lamports_in: (old(game).total_lamports_in + wager) as u64,
                ..*old(game)
            })
            &&& *final(stats) == (Stats {
                total_bets: (old(stats).total_bets + 1) as u32,
                total_wager: (old(stats).total_wager + wager) as u64,
                ..*old(stats)
            })
        }),
{
    if bettor != bettor_user_account.authority {
        return Err(BettingError::WrongPubkey);
    }
    if host_user_account.authority != game.host {
        return Err(BettingError::WrongPubkey);
    }
    if !game.is_active {
        return Err(BettingError::GameNotActive);
    }
    match args.bet_input.check_bet_input(game) {
        Err(e) => {
            return Err(e);
        },
        Ok(()) => (),
    }
    let bettor_lamports_to_lock = match args.bet_input.check_bettor_balance(
        game,
        bettor_user_account,
    ) {
        Err(e) => {
            return Err(e);
        },
        Ok(v) => v,
    };
    let host_lamports_to_lock = match args.bet_input.check_host_balance(game, host_user_account) {
        Err(e) => {
            return Err(e);
        },
        Ok(v) => v,
    };
    let bet_id = bettor_user_account.total_bets;
    bettor_user_account.total_bets = bettor_user_account.total_bets + 1;
    bettor_user_account.active_vrf_results = bettor_user_account.active_vrf_results + 1;
    bettor_user_account.current_lamports = bettor_user_account.current_lamports
        - bettor_lamports_to_lock;
    stats.total_bets = stats.total_bets + 1;
    stats.total_wager = stats.total_wager + bettor_lamports_to_lock;
    game.unresolved_vrf_result = game.unresolved_vrf_result + 1;
    game.total_lamports_in = game.total_lamports_in + bettor_lamports_to_lock;
    host_user_account.current_lamports = host_user_account.current_lamports
        - host_lamports_to_lock;
    Ok(
        VrfResult::new(
            bettor,
            game_address,
            bet_id,
            alpha,
            bettor_lamports_to_lock,
            host_lamports_to_lock,
            args.bet_input,
        ),
    )
}

/// Why fulfillment would be refused, if it would be: only the designated
/// operator may supply randomness, once, and never to a settled bet.
pub open spec fn fulfill_guard(caller: Identity, operator: Identity, vrf_result: VrfResult) -> Option<
    BettingError,
> {
    if caller != operator {
        Some(BettingError::WrongPubkey)
    } else if vrf_result.is_fullfilled {
        Some(BettingError::VrfResultAlreadyFullfilled)
    } else if vrf_result.is_used {
        Some(BettingError::VrfResultAlreadyUsed)
    } else {
        None
    }
}

/// Attaches the randomness producer's output and proof to a Pending bet,
/// moving it to Fulfilled. The proof is stored untouched; the ledger trusts
/// the operator identity instead of verifying it.
pub fn vrf_result_fullfill(
    caller: Identity,
    operator: Identity,
    vrf_result: &mut VrfResult,
    args: VrfResultFullfillArgs,
) -> (r: Result<(), BettingError>)
    ensures
        r is Ok <==> (caller == operator && !old(vrf_result).is_fullfilled && !old(
            vrf_result,
        ).is_used),
        fulfill_guard(caller, operator, *old(vrf_result)) matches Some(e) ==> r == Result::<
            (),
            BettingError,
        >::Err(e) && *final(vrf_result) == *old(vrf_result),
        fulfill_guard(caller, operator, *old(vrf_result)) is None ==> *final(vrf_result) == (VrfResult {
            is_fullfilled: true,
            beta: args.beta,
            pi: args.pi,
            ..*old(vrf_result)
        }),
{
    if caller != operator {
        return Err(BettingError::WrongPubkey);
    }
    if vrf_result.is_fullfilled {
        return Err(BettingError::VrfResultAlreadyFullfilled);
    }
    if vrf_result.is_used {
        return Err(BettingError::VrfResultAlreadyUsed);
    }
    vrf_result.is_fullfilled = true;
    vrf_result.beta = args.beta;
    vrf_result.pi = args.pi;
    Ok(())
}

/// Law: randomness lands on a bet at most once — however a bet record got
/// fulfilled, a second fulfillment by the operator is refused as already
/// fulfilled, and by anyone else as the wrong identity.
pub proof fn lemma_no_double_fulfill(caller: Identity, operator: Identity, vrf_result: VrfResult)
    requires
        vrf_result.is_fullfilled,
    ensures
        fulfill_guard(caller, operator, vrf_result) is Some,
        caller == operator ==> fulfill_guard(caller, operator, vrf_result) == Some(
            BettingError::VrfResultAlreadyFullfilled,
        ),
{
}

/// Marks a bet record for closing; only its owner may, at any point of the
/// lifecycle.
pub fn vrf_result_mark_close(caller: Identity, vrf_result: &mut VrfResult) -> (r: Result<
    (),
    BettingError,
>)
    ensures
        r is Ok <==> caller == old(vrf_result).owner,
        caller != old(vrf_result).owner ==> r == Result::<(), BettingError>::Err(
            BettingError::NoAuthority,
        ) && *final(vrf_result) == *old(vrf_result),
        caller == old(vrf_result).owner ==> *final(vrf_result) == (VrfResult {
            marked_for_close: true,
            ..*old(vrf_result)
        }),
{
    if caller != vrf_result.owner {
        return Err(BettingError::NoAuthority);
    }
    vrf_result.marked_for_close = true;
    Ok(())
}

/// Why settlement would be refused, if it would be: the supplied records must
/// belong together, and the bet must be Fulfilled, not yet used, with an
/// input of the game's type.
pub open spec fn settle_bet_guard(
    game_address: Identity,
    game: Game,
    vrf_result: VrfResult,
    host_user_account: UserAccount,
    bettor_user_account: UserAccount,
) -> Option<BettingError> {
    if vrf_result.game != game_address {
        Some(BettingError::WrongPubkey)
    } else if bettor_user_account.authority != vrf_result.owner {
        Some(BettingError::WrongPubkey)
    } else if host_user_account.authority != game.host {
        Some(BettingError::WrongPubkey)
    } else if !vrf_result.is_fullfilled {
        Some(BettingError::VrfResultNotFullfilled)
    } else if vrf_result.is_used {
        Some(BettingError::VrfResultAlreadyUsed)
    } else if !vrf_result.bet_input.matches_game_type(game.game_type_config) {
        Some(BettingError::InvalidArgument)
    } else {
        None
    }
}

/// Settles a Fulfilled bet, exactly once: resolves the winner from the random
/// value, credits the whole escrow — both locked amounts — to the winner's
/// balance, books the payout on the game and the global aggregate when the
/// bettor won, and marks the record used. Anyone may trigger it. Returns
/// whether the bettor won.
pub fn game_resolve_vrf_result(
    game_address: Identity,
    game: &mut Game,
    vrf_result: &mut VrfResult,
    host_user_account: &mut UserAccount,
    bettor_user_account: &mut UserAccount,
    stats: &mut Stats,
) -> (r: Result<bool, BettingError>)
    requires
        settle_bet_guard(
            game_address,
            *old(game),
            *old(vrf_result),
            *old(host_user_account),
            *old(bettor_user_account),
        ) is None ==> {
            &&& old(game).unresolved_vrf_result >= 1
            &&& old(vrf_result).locked_total() <= u64::MAX
            &&& old(bettor_user_account).current_lamports + old(vrf_result).locked_total()
                <= u64::MAX
            &&& old(host_user_account).current_lamports + old(vrf_result).locked_total()
                <= u64::MAX
            &&& old(game).total_lamports_out + old(vrf_result).locked_host_lamports <= u64::MAX
            &&& old(stats).total_lamports_won_by_bettors + old(vrf_result).locked_host_lamports
                <= u64::MAX
        },
    ensures
        settle_bet_guard(
            game_address,
            *old(game),
            *old(vrf_result),
            *old(host_user_account),
            *old(bettor_user_account),
        ) matches Some(e) ==> {
            &&& r == Result::<bool, BettingError>::Err(e)
            &&& *final(game) == *old(game)
            &&& *final(vrf_result) == *old(vrf_result)
            &&& *final(host_user_account) == *old(host_user_account)
            &&& *final(bettor_user_account) == *old(bettor_user_account)
            &&& *final(stats) == *old(stats)
        },
        settle_bet_guard(
            game_address,
            *old(game),
            *old(vrf_result),
            *old(host_user_account),
            *old(bettor_user_account),
        ) is None ==> ({
            let wins = old(game).game_type_config.bettor_wins_spec(
                old(vrf_result).bet_input,
                old(vrf_result).beta@,
            );
            let total = old(vrf_result).locked_total();
            let host_lock = old(vrf_result).locked_host_lamports;
            &&& r == Result::<bool, BettingError>::Ok(wins)
            &&& *final(vrf_result) == (VrfResult { is_used: true, ..*old(vrf_result) })
            &&& wins ==> {
                &&& *final(bettor_user_account) == (UserAccount {
                    current_lamports: (old(bettor_user_account).current_lamports + total) as u64,
                    ..*old(bettor_user_account)
                })
                &&& *final(host_user_account) == *old(host_user_account)
                &&& *final(game) == (Game {
                    unresolved_vrf_result: (old(game).unresolved_vrf_result - 1) as u32,
                    total_lamports_out: (old(game).total_lamports_out + host_lock) as u64,
                    ..*old(game)
                })
                &&& *final(stats) == (Stats {
                    total_lamports_won_by_bettors: (old(stats).total_lamports_won_by_bettors
                        + host_lock) as u64,
                    ..*old(stats)
                })
            }
            &&& !wins ==> {
                &&& *final(host_user_account) == (UserAccount {
                    current_lamports: (old(host_user_account).current_lamports + total) as u64,
                    ..*old(host_user_account)
                })
                &&& *final(bettor_user_account) == *old(bettor_user_account)
                &&& *final(game) == (Game {
                    unresolved_vrf_result: (old(game).unresolved_vrf_result - 1) as u32,
                    ..*old(game)
                })
                &&& *final(stats) == *old(stats)
            }
            &&& final(bettor_user_account).current_lamports
                + final(host_user_account).current_lamports == old(
                bettor_user_account,
            ).current_lamports + old(host_user_account).current_lamports + total
        }),
{
    if vrf_result.game != game_address {
        return Err(BettingError::WrongPubkey);
    }
    if bettor_user_account.authority != vrf_result.owner {
        return Err(BettingError::WrongPubkey);
    }
    if host_user_account.authority != game.host {
        return Err(BettingError::WrongPubkey);
    }
    let game_type_config = game.game_type_config;
    let bettor_won = match game_type_config.resolve(vrf_result) {
        Err(e) => {
            return Err(e);
        },
        Ok(w) => w,
    };
    game.unresolved_vrf_result = game.unresolved_vrf_result - 1;
    vrf_result.is_used = true;
    if bettor_won {
        game.total_lamports_out = game.total_lamports_out + vrf_result.locked_host_lamports;
        bettor_user_account.current_lamports = bettor_user_account.current_lamports
            + vrf_result.locked_bettor_lamports;
        bettor_user_account.current_lamports = bettor_user_account.current_lamports
            + vrf_result.locked_host_lamports;
        stats.total_lamports_won_by_bettors = stats.total_lamports_won_by_bettors
            + vrf_result.locked_host_lamports;
    } else {
        host_user_account.current_lamports = host_user_account.current_lamports
            + vrf_result.locked_host_lamports;
        host_user_account.current_lamports = host_user_account.current_lamports
            + vrf_result.locked_bettor_lamports;
    }
    Ok(bettor_won)
}

/// Law: settlement happens at most once. A settled record — `is_used` set,
/// as settlement leaves it — passed back with the same records is refused as
/// already used, and the refusal changes nothing, so balances move only once.
pub proof fn lemma_no_double_settlement(
    game_address: Identity,
    game: Game,
    vrf_result: VrfResult,
    host_user_account: UserAccount,
    bettor_user_account: UserAccount,
)
    requires
        vrf_result.is_used,
    ensures
        settle_bet_guard(game_address, game, vrf_result, host_user_account, bettor_user_account)
            is Some,
        vrf_result.game == game_address && bettor_user_account.authority == vrf_result.owner
            && host_user_account.authority == game.host && vrf_result.is_fullfilled
            ==> settle_bet_guard(
            game_address,
            game,
            vrf_result,
            host_user_account,
            bettor_user_account,
        ) == Some(BettingError::VrfResultAlreadyUsed),
{
}

/// Why closing a bet record would be refused, if it would be: only the owner
/// may close, and only a marked, fulfilled, used record.
pub open spec fn close_bet_guard(
    caller: Identity,
    vrf_result: VrfResult,
    bettor_user_account: UserAccount,
) -> Option<BettingError> {
    if caller != bettor_user_account.authority {
        Some(BettingError::WrongPubkey)
    } else if caller != vrf_result.owner {
        Some(BettingError::WrongPubkey)
    } else if !vrf_result.marked_for_close {
        Some(BettingError::VrfResultNotMarkedForClose)
    } else if !vrf_result.is_fullfilled {
        Some(BettingError::VrfResultNotFullfilled)
    } else if !vrf_result.is_used {
        Some(BettingError::VrfResultNotUsed)
    } else {
        None
    }
}

/// Approves destroying a spent bet record and books it off its owner's
/// account. The record itself is destroyed by the record store once this
/// succeeds, returning its storage allowance to the bettor.
pub fn vrf_result_close(
    vrf_result: &VrfResult,
    caller: Identity,
    bettor_user_account: &mut UserAccount,
) -> (r: Result<(), BettingError>)
    requires
        close_bet_guard(caller, *vrf_result, *old(bettor_user_account)) is None ==> old(
            bettor_user_account,
        ).active_vrf_results >= 1,
    ensures
        r is Ok <==> (caller == old(bettor_user_account).authority && caller == vrf_result.owner
            && vrf_result.closable()),
        close_bet_guard(caller, *vrf_result, *old(bettor_user_account)) matches Some(e) ==> r
            == Result::<(), BettingError>::Err(e) && *final(bettor_user_account) == *old(
            bettor_user_account,
        ),
        close_bet_guard(caller, *vrf_result, *old(bettor_user_account)) is None
            ==> *final(bettor_user_account) == (UserAccount {
            active_vrf_results: (old(bettor_user_account).active_vrf_results - 1) as u32,
            ..*old(bettor_user_account)
        }),
{
    if caller != bettor_user_account.authority {
        return Err(BettingError::WrongPubkey);
    }
    if caller != vrf_result.owner {
        return Err(BettingError::WrongPubkey);
    }
    if !vrf_result.marked_for_close {
        return Err(BettingError::VrfResultNotMarkedForClose);
    }
    if !vrf_result.is_fullfilled {
        return Err(BettingError::VrfResultNotFullfilled);
    }
    if !vrf_result.is_used {
        return Err(BettingError::VrfResultNotUsed);
    }
    bettor_user_account.active_vrf_results = bettor_user_account.active_vrf_results - 1;
    Ok(())
}

/// Law: a bet record can be closed exactly when its owner calls and the
/// record is marked for close, fulfilled, and used, all at once.
pub proof fn lemma_close_requires_full_lifecycle(
    caller: Identity,
    vrf_result: VrfResult,
    bettor_user_account: UserAccount,
)
    ensures
        close_bet_guard(caller, vrf_result, bettor_user_account) is None <==> (caller
            == bettor_user_account.authority && caller == vrf_result.owner
            && vrf_result.marked_for_close && vrf_result.is_fullfilled && vrf_result.is_used),
{
}

} // verus!
