//! Account registry operations: registration, deposit, withdrawal with the
//! profit-share split, and closure. Every operation validates fully before it
//! mutates anything, so a failure leaves every record as it was.

use vstd::prelude::*;

use crate::error::BettingError;
use crate::identity::Identity;
use crate::stats::Stats;
use crate::user_account::{profit_share_of, UserAccount};

verus! {

/// What a registration request carries.
#[derive(Clone, Debug)]
pub struct UserAccountCreateArgs {
    pub username: Option<String>,
    pub referral: Option<Identity>,
}

/// What a deposit request carries.
#[derive(Clone, Copy, Debug)]
pub struct UserAccountDepositArgs {
    pub lamports: u64,
}

/// What a withdrawal request carries.
#[derive(Clone, Copy, Debug)]
pub struct UserAccountWithdrawArgs {
    pub lamports: u64,
}

/// Where a withdrawal's funds go: the three amounts always sum to the amount
/// withdrawn.
#[derive(Clone, Copy, Debug, PartialEq, Eq, Structural)]
pub struct WithdrawTransfers {
    pub user_amount: u64,
    pub referral_amount: u64,
    pub operator_amount: u64,
}

/// Registers a principal: a fresh account record, and one more user in the
/// global aggregate. The record store refuses a second registration of the
/// same principal, so no check is needed here.
pub fn user_account_create(authority: Identity, args: UserAccountCreateArgs, stats: &mut Stats) -> (r:
    UserAccount)
    requires
        old(stats).total_users < u32::MAX,
    ensures
        r.account_type == crate::account_type::StateAccountType::UserAccount,
        r.authority == authority,
        r.total_bets == 0,
        r.current_lamports == 0,
        r.lamports_deposited == 0,
        r.lamports_withdrew == 0,
        r.active_vrf_results == 0,
        r.games_hosted == 0,
        r.referral == args.referral,
        r.username == args.username,
        *final(stats) == (Stats {
            total_users: (old(stats).total_users + 1) as u32,
            ..*old(stats)
        }),
{
    let user_account = UserAccount::new(authority, args.referral, args.username);
    stats.total_users = stats.total_users + 1;
    user_account
}

/// Credits a deposit to an account: balance and lifetime deposits grow by the
/// amount, and so does the global deposit total. Anyone may fund any account;
/// the funds source is authorized by the host platform.
pub fn user_account_deposit(
    user_account: &mut UserAccount,
    stats: &mut Stats,
    args: UserAccountDepositArgs,
)
    requires
        old(user_account).current_lamports + args.lamports <= u64::MAX,
        old(user_account).lamports_deposited + args.lamports <= u64::MAX,
        old(stats).total_lamports_deposited + args.lamports <= u64::MAX,
    ensures
        *final(user_account) == (UserAccount {
            current_lamports: (old(user_account).current_lamports + args.lamports) as u64,
            lamports_deposited: (old(user_account).lamports_deposited + args.lamports) as u64,
            ..*old(user_account)
        }),
        *final(stats) == (Stats {
            total_lamports_deposited: (old(stats).total_lamports_deposited + args.lamports) as u64,
            ..*old(stats)
        }),
{
    user_account.current_lamports = user_account.current_lamports + args.lamports;
    user_account.lamports_deposited = user_account.lamports_deposited + args.lamports;
    stats.total_lamports_deposited = stats.total_lamports_deposited + args.lamports;
}

/// Pays a withdrawal out of an account: only the account's owner may, only up
/// to the balance. The profit share is carved out of the paid amount and
/// split evenly between referrer and operator — all of it to the operator
/// when no referrer is set — and the three transfers always sum to the
/// amount, which leaves custody entirely.
pub fn user_account_withdraw(
    user_account: &mut UserAccount,
    stats: &mut Stats,
    caller: Identity,
    args: UserAccountWithdrawArgs,
) -> (r: Result<WithdrawTransfers, BettingError>)
    requires
        caller == old(user_account).authority && args.lamports <= old(
            user_account,
        ).current_lamports ==> {
            &&& old(user_account).lamports_withdrew + args.lamports <= u64::MAX
            &&& old(stats).total_lamports_withdrew + args.lamports <= u64::MAX
        },
    ensures
        caller != old(user_account).authority ==> r == Result::<
            WithdrawTransfers,
            BettingError,
        >::Err(BettingError::NoAuthority),
        caller == old(user_account).authority && args.lamports > old(
            user_account,
        ).current_lamports ==> r == Result::<WithdrawTransfers, BettingError>::Err(
            BettingError::InsufficientFunds,
        ),
        r is Err ==> *final(user_account) == *old(user_account) && *final(stats) == *old(stats),
        caller == old(user_account).authority && args.lamports <= old(
            user_account,
        ).current_lamports ==> ({
            let share = profit_share_of(
                old(user_account).lamports_deposited as int,
                old(user_account).lamports_withdrew as int,
                args.lamports as int,
            );
            &&& r is Ok
            &&& r->Ok_0.user_amount == args.lamports - share
            &&& (old(user_account).referral is Some ==> r->Ok_0.referral_amount == share / 2
                && r->Ok_0.operator_amount == share - share / 2)
            &&& (old(user_account).referral is None ==> r->Ok_0.referral_amount == 0
                && r->Ok_0.operator_amount == share)
            &&& r->Ok_0.user_amount + r->Ok_0.referral_amount + r->Ok_0.operator_amount
                == args.lamports
            &&& *final(user_account) == (UserAccount {
                current_lamports: (old(user_account).current_lamports - args.lamports) as u64,
                lamports_withdrew: (old(user_account).lamports_withdrew + args.lamports) as u64,
                ..*old(user_account)
            })
            &&& *final(stats) == (Stats {
                total_lamports_withdrew: (old(stats).total_lamports_withdrew
                    + args.lamports) as u64,
                ..*old(stats)
            })
        }),
{
    if caller != user_account.authority {
        return Err(BettingError::NoAuthority);
    }
    if user_account.current_lamports < args.lamports {
        return Err(BettingError::InsufficientFunds);
    }
    let profit_share = user_account.get_profit_share(args.lamports);
    let user_amount = args.lamports - profit_share;
    let referral_amount = profit_share / 2;
    let op_amount = profit_share - referral_amount;
    user_account.lamports_withdrew = user_account.lamports_withdrew + args.lamports;
    user_account.current_lamports = user_account.current_lamports - args.lamports;
    stats.total_lamports_withdrew = stats.total_lamports_withdrew + args.lamports;
    if user_account.referral.is_some() {
        Ok(WithdrawTransfers { user_amount, referral_amount, operator_amount: op_amount })
    } else {
        Ok(
            WithdrawTransfers {
                user_amount,
                referral_amount: 0,
                operator_amount: op_amount + referral_amount,
            },
        )
    }
}

/// Why closing an account would be refused, if it would be: only the owner
/// may close, and only once the balance is empty, no games are hosted, and
/// no bet records remain.
pub open spec fn account_close_guard(user_account: UserAccount, caller: Identity) -> Option<
    BettingError,
> {
    if caller != user_account.authority {
        Some(BettingError::NoAuthority)
    } else if user_account.current_lamports > 0 {
        Some(BettingError::UserAccountNotSettled)
    } else if user_account.games_hosted > 0 {
        Some(BettingError::UserAccountNotSettled)
    } else if user_account.active_vrf_results > 0 {
        Some(BettingError::UserAccountNotSettled)
    } else {
        None
    }
}

/// Approves destroying an account record and books it out of the global
/// aggregate. The record itself is destroyed by the record store once this
/// succeeds.
pub fn user_account_close(user_account: &UserAccount, stats: &mut Stats, caller: Identity) -> (r:
    Result<(), BettingError>)
    requires
        account_close_guard(*user_account, caller) is None ==> old(stats).total_users >= 1,
    ensures
        r is Ok <==> (caller == user_account.authority && user_account.current_lamports == 0
            && user_account.games_hosted == 0 && user_account.active_vrf_results == 0),
        account_close_guard(*user_account, caller) matches Some(e) ==> r == Result::<
            (),
            BettingError,
        >::Err(e) && *final(stats) == *old(stats),
        account_close_guard(*user_account, caller) is None ==> *final(stats) == (Stats {
            total_users: (old(stats).total_users - 1) as u32,
            ..*old(stats)
        }),
{
    if caller != user_account.authority {
        return Err(BettingError::NoAuthority);
    }
    if user_account.current_lamports > 0 {
        return Err(BettingError::UserAccountNotSettled);
    }
    if user_account.games_hosted > 0 {
        return Err(BettingError::UserAccountNotSettled);
    }
    if user_account.active_vrf_results > 0 {
        return Err(BettingError::UserAccountNotSettled);
    }
    stats.total_users = stats.total_users - 1;
    Ok(())
}

} // verus!
