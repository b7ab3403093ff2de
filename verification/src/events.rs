use vstd::prelude::*;
use crate::account::AccountId;

verus! {

/// Why an operation on the fund was refused.
#[derive(Clone, Copy, Debug, PartialEq, Eq, Structural)]
pub enum Error {
    ParticipantsAlreadyFull,
    ChitFundHasFinished,
    AlreadyJoined,
    /// Reserved: no operation returns it.
    CannotJoinMidCycle,
    OnlyOwnerCanBeginCycle,
    OnlyOwnerCanEndCycle,
    ChitFundNotFinished,
    NotParticipant,
    OnlyAdminCanDraw,
    ChitFundAlreadyFinished,
    FailedToGetWinner,
}

/// A new participant was enrolled.
#[derive(Clone, Copy, Debug, PartialEq, Eq)]
pub struct JoinedChitFund {
    pub account: Option<AccountId>,
}

/// A participant paid into the pot.
#[derive(Clone, Copy, Debug, PartialEq, Eq)]
pub struct FundDeposited {
    pub account: Option<AccountId>,
    pub amount: u128,
}

/// The administrator reopened the collection.
#[derive(Clone, Copy, Debug, PartialEq, Eq)]
pub struct NewCycleBegan {
    pub admin: Option<AccountId>,
}

/// The administrator closed the collection.
#[derive(Clone, Copy, Debug, PartialEq, Eq)]
pub struct CycleEnded {
    pub admin: Option<AccountId>,
}

/// A draw picked `victor`, who is owed `amount_won`.
#[derive(Clone, Copy, Debug, PartialEq, Eq)]
pub struct DrawWinner {
    pub victor: Option<AccountId>,
    pub amount_won: u128,
}

} // verus!
