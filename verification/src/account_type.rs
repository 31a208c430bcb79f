//! The kind tag stored in the first byte of every persisted record, used at
//! the record store boundary to refuse a record of the wrong kind.

use vstd::prelude::*;

use crate::error::BettingError;

verus! {

/// Which of the ledger's record kinds a stored record holds.
#[derive(Clone, Copy, Debug, PartialEq, Eq, Structural)]
pub enum StateAccountType {
    Uninitialized,
    Stats,
    UserAccount,
    Vrf,
    Game,
}

impl StateAccountType {
    /// The byte that leads a serialized record of this kind.
    pub open spec fn tag_spec(self) -> u8 {
        match self {
            StateAccountType::Uninitialized => 0,
            StateAccountType::Stats => 1,
            StateAccountType::UserAccount => 2,
            StateAccountType::Vrf => 3,
            StateAccountType::Game => 4,
        }
    }

    /// The byte that leads a serialized record of this kind.
    pub fn tag(&self) -> (t: u8)
        ensures
            t == self.tag_spec(),
    {
        match self {
            StateAccountType::Uninitialized => 0,
            StateAccountType::Stats => 1,
            StateAccountType::UserAccount => 2,
            StateAccountType::Vrf => 3,
            StateAccountType::Game => 4,
        }
    }

    /// The kind's display name.
    pub open spec fn label_spec(self) -> Seq<char> {
        match self {
            StateAccountType::Uninitialized => "Uninitialized"@,
            StateAccountType::Stats => "Stats"@,
            StateAccountType::UserAccount => "UserAccount"@,
            StateAccountType::Vrf => "VrfResult"@,
            StateAccountType::Game => "Game"@,
        }
    }

    /// The kind's display name.
    pub fn label(&self) -> (s: &'static str)
        ensures
            s@ == self.label_spec(),
    {
        match self {
            StateAccountType::Uninitialized => "Uninitialized",
            StateAccountType::Stats => "Stats",
            StateAccountType::UserAccount => "UserAccount",
            StateAccountType::Vrf => "VrfResult",
            StateAccountType::Game => "Game",
        }
    }
}

/// Refuses a stored record whose leading byte is not the expected kind: a
/// never-written record is uninitialized, any other mismatch is the wrong
/// kind of record.
pub fn check_account_tag(tag: u8, expected: StateAccountType) -> (r: Result<(), BettingError>)
    ensures
        r is Ok <==> tag == expected.tag_spec() && expected != StateAccountType::Uninitialized,
        tag == StateAccountType::Uninitialized.tag_spec() ==> r == Result::<(), BettingError>::Err(
            BettingError::UninitializedAccount,
        ),
        tag != StateAccountType::Uninitialized.tag_spec() && tag != expected.tag_spec()
            ==> r == Result::<(), BettingError>::Err(BettingError::InvalidAccountData),
{
    if tag == StateAccountType::Uninitialized.tag() {
        Err(BettingError::UninitializedAccount)
    } else if tag != expected.tag() {
        Err(BettingError::InvalidAccountData)
    } else {
        Ok(())
    }
}

} // verus!
