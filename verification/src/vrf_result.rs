//! The per-wager escrow record. It moves Pending -> Fulfilled -> Settled ->
//! marked-for-close -> closed, and the flag guards here are what make a
//! double release of the locked funds impossible.

use vstd::prelude::*;

use crate::account_type::StateAccountType;
use crate::error::BettingError;
use crate::game::BetInput;
use crate::identity::Identity;

verus! {

/// One wager's escrow record, created at bet placement with both sides'
/// funds already locked.
#[derive(Clone, Debug)]
pub struct VrfResult {
    pub account_type: StateAccountType,
    /// The randomness producer has supplied `beta` and `pi`.
    pub is_fullfilled: bool,
    /// Settlement has released the locked funds, exactly once.
    pub is_used: bool,
    /// The owner has asked for the record to be closed.
    pub marked_for_close: bool,
    /// The bettor.
    pub owner: Identity,
    /// The game record this wager was placed against.
    pub game: Identity,
    /// The owner's bet sequence number at placement time.
    pub bet_id: u32,
    /// Seed material handed to the randomness producer.
    pub alpha: [u8; 72],
    /// The randomness producer's output.
    pub beta: [u8; 64],
    /// The randomness producer's proof; stored, never verified here.
    pub pi: [u8; 80],
    pub locked_bettor_lamports: u64,
    pub locked_host_lamports: u64,
    pub bet_input: BetInput,
}

impl VrfResult {
    /// A bet may settle once randomness arrived and no settlement has used
    /// it yet.
    pub open spec fn settleable(self) -> bool {
        self.is_fullfilled && !self.is_used
    }

    /// Why a settlement attempt would be refused, if it would be.
    pub open spec fn settle_guard(self) -> Option<BettingError> {
        if !self.is_fullfilled {
            Some(BettingError::VrfResultNotFullfilled)
        } else if self.is_used {
            Some(BettingError::VrfResultAlreadyUsed)
        } else {
            None
        }
    }

    /// Everything locked in this escrow, both sides together.
    pub open spec fn locked_total(self) -> int {
        self.locked_bettor_lamports + self.locked_host_lamports
    }

    /// A bet record may be destroyed only once its owner marked it, its
    /// randomness arrived, and settlement released the funds.
    pub open spec fn closable(self) -> bool {
        self.marked_for_close && self.is_fullfilled && self.is_used
    }

    /// A fresh escrow record: Pending, unmarked, with the given funds locked.
    pub fn new(
        owner: Identity,
        game: Identity,
        bet_id: u32,
        alpha: [u8; 72],
        locked_bettor_lamports: u64,
        locked_host_lamports: u64,
        bet_input: BetInput,
    ) -> (r: VrfResult)
        ensures
            r.account_type == StateAccountType::Vrf,
            !r.is_fullfilled,
            !r.is_used,
            !r.marked_for_close,
            r.owner == owner,
            r.game == game,
            r.bet_id == bet_id,
            r.alpha == alpha,
            forall|i: int| 0 <= i < 64 ==> r.beta@[i] == 0,
            forall|i: int| 0 <= i < 80 ==> r.pi@[i] == 0,
            r.locked_bettor_lamports == locked_bettor_lamports,
            r.locked_host_lamports == locked_host_lamports,
            r.bet_input == bet_input,
    {
        VrfResult {
            account_type: StateAccountType::Vrf,
            is_fullfilled: false,
            is_used: false,
            marked_for_close: false,
            owner,
            game,
            bet_id,
            alpha,
            beta: [0; 64],
            pi: [0; 80],
            locked_bettor_lamports,
            locked_host_lamports,
            bet_input,
        }
    }

    /// Refuses settlement unless the bet is Fulfilled and not yet used — the
    /// guard every payout rule runs before touching locked funds.
    pub fn check_vrf_result(&self) -> (r: Result<(), BettingError>)
        ensures
            r is Ok <==> self.settleable(),
            r is Err <==> self.settle_guard() is Some,
            r is Err ==> r == Result::<(), BettingError>::Err(self.settle_guard()->0),
    {
        if !self.is_fullfilled {
            Err(BettingError::VrfResultNotFullfilled)
        } else if self.is_used {
            Err(BettingError::VrfResultAlreadyUsed)
        } else {
            Ok(())
        }
    }
}

} // verus!
