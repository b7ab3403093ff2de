use vstd::prelude::*;
use crate::account::AccountId;
use crate::events::{CycleEnded, DrawWinner, Error, FundDeposited, JoinedChitFund, NewCycleBegan};

verus! {

/// The single probe of the winner selection: the participant at position
/// `seed mod len`, unless the list is empty or that participant has already
/// won. No other position is ever tried, so a draw can fail while eligible
/// participants remain. The pick is a function of the seed alone: anyone who
/// knows the seed can recompute it, and it is no secure randomness.
pub open spec fn select(participants: Seq<AccountId>, used: Seq<AccountId>, seed: u32) -> Option<
    AccountId,
> {
    if participants.len() == 0 {
        None
    } else {
        let candidate = participants[seed as int % participants.len() as int];
        if used.contains(candidate) {
            None
        } else {
            Some(candidate)
        }
    }
}

/// The fund as a mathematical value: amounts and counters are unbounded
/// integers, the two lists are sequences.
pub struct FundView {
    pub admin: AccountId,
    pub max_participants: nat,
    pub monthly_contribution: nat,
    pub current_round: nat,
    pub pot: nat,
    pub total_amount: nat,
    pub participants: Seq<AccountId>,
    pub used_indexes: Seq<AccountId>,
    pub finished: bool,
}

impl FundView {
    /// The fund's invariant: nobody is enrolled twice, the list is within
    /// its bound, no winner is recorded twice, every winner is enrolled and
    /// the round counter is at least one.
    pub open spec fn wf(self) -> bool {
        &&& self.participants.no_duplicates()
        &&& self.participants.len() <= self.max_participants
        &&& self.used_indexes.no_duplicates()
        &&& forall|i: int|
            0 <= i < self.used_indexes.len() ==> self.participants.contains(
                #[trigger] self.used_indexes[i],
            )
        &&& self.current_round >= 1
    }

    /// During the draw phase the pot is empty: what was collected has moved
    /// to the round total. Every fund that the operations reach from a new
    /// one is settled.
    pub open spec fn settled(self) -> bool {
        self.finished ==> self.pot == 0
    }

    /// The round total covers the pot, so that a payout can be computed.
    pub open spec fn covered(self) -> bool {
        self.pot <= self.total_amount
    }

    /// Amounts and counters are within what the fund's fields can hold.
    pub open spec fn in_range(self) -> bool {
        &&& self.max_participants <= u32::MAX
        &&& self.monthly_contribution <= u128::MAX
        &&& self.current_round <= u32::MAX
        &&& self.pot <= u128::MAX
        &&& self.total_amount <= u128::MAX
    }

    /// The state that construction yields.
    pub open spec fn initial(admin: AccountId, max_participants: nat, monthly_contribution: nat) -> FundView {
        FundView {
            admin,
            max_participants,
            monthly_contribution,
            current_round: 1,
            pot: 0,
            total_amount: 0,
            participants: Seq::empty(),
            used_indexes: Seq::empty(),
            finished: false,
        }
    }

    /// Whether `caller` is the administrator.
    pub open spec fn is_admin(self, caller: AccountId) -> bool {
        caller == self.admin
    }

    /// Whether `caller` is enrolled.
    pub open spec fn is_participant(self, caller: AccountId) -> bool {
        self.participants.contains(caller)
    }

    /// Every participant has won since the last reset.
    pub open spec fn exhausted(self) -> bool {
        self.used_indexes.len() == self.participants.len()
    }

    /// The winners that a draw excludes: none once all have won.
    pub open spec fn excluded(self) -> Seq<AccountId> {
        if self.exhausted() {
            Seq::empty()
        } else {
            self.used_indexes
        }
    }

    /// The pot is copied into the round total and emptied.
    pub open spec fn snapshot(self) -> FundView {
        FundView { total_amount: self.pot, pot: 0, ..self }
    }

    /// What a join by `caller` returns: refused when the list is full, then
    /// when the fund is in its draw phase, then when `caller` is enrolled.
    pub open spec fn join_outcome(self, caller: AccountId) -> Result<JoinedChitFund, Error> {
        if self.participants.len() >= self.max_participants {
            Err(Error::ParticipantsAlreadyFull)
        } else if self.finished {
            Err(Error::ChitFundHasFinished)
        } else if self.is_participant(caller) {
            Err(Error::AlreadyJoined)
        } else {
            Ok(JoinedChitFund { account: Some(caller) })
        }
    }

    /// The fund after a join by `caller`: enrolled last if accepted,
    /// unchanged if refused.
    pub open spec fn after_join(self, caller: AccountId) -> FundView {
        if self.join_outcome(caller) is Ok {
            FundView { participants: self.participants.push(caller), ..self }
        } else {
            self
        }
    }

    /// What a deposit returns: refused when `caller` is not enrolled, then
    /// when the fund is in its draw phase.
    pub open spec fn deposit_outcome(self, caller: AccountId, amount: u128) -> Result<
        FundDeposited,
        Error,
    > {
        if !self.is_participant(caller) {
            Err(Error::NotParticipant)
        } else if self.finished {
            Err(Error::ChitFundHasFinished)
        } else {
            Ok(FundDeposited { account: Some(caller), amount })
        }
    }

    /// The fund after a deposit: the pot raised by `amount` if accepted,
    /// unchanged if refused.
    pub open spec fn after_deposit(self, caller: AccountId, amount: u128) -> FundView {
        if self.deposit_outcome(caller, amount) is Ok {
            FundView { pot: self.pot + amount as nat, ..self }
        } else {
            self
        }
    }

    /// What an end of cycle returns: refused when `caller` is not the
    /// administrator, then when the fund is in its draw phase already.
    pub open spec fn end_cycle_outcome(self, caller: AccountId) -> Result<CycleEnded, Error> {
        if !self.is_admin(caller) {
            Err(Error::OnlyOwnerCanEndCycle)
        } else if self.finished {
            Err(Error::ChitFundAlreadyFinished)
        } else {
            Ok(CycleEnded { admin: Some(caller) })
        }
    }

    /// The fund after an end of cycle: pot snapshotted, round counter one
    /// higher and draw phase entered if accepted, unchanged if refused.
    pub open spec fn after_end_cycle(self, caller: AccountId) -> FundView {
        if self.end_cycle_outcome(caller) is Ok {
            FundView { current_round: self.current_round + 1, finished: true, ..self.snapshot() }
        } else {
            self
        }
    }

    /// What a begin of cycle returns: refused when `caller` is not the
    /// administrator, then when the fund is in its collection phase.
    pub open spec fn begin_cycle_outcome(self, caller: AccountId) -> Result<NewCycleBegan, Error> {
        if !self.is_admin(caller) {
            Err(Error::OnlyOwnerCanBeginCycle)
        } else if !self.finished {
            Err(Error::ChitFundNotFinished)
        } else {
            Ok(NewCycleBegan { admin: Some(caller) })
        }
    }

    /// The fund after a begin of cycle: pot snapshotted again and
    /// collection phase entered if accepted, unchanged if refused.
    pub open spec fn after_begin_cycle(self, caller: AccountId) -> FundView {
        if self.begin_cycle_outcome(caller) is Ok {
            FundView { finished: false, ..self.snapshot() }
        } else {
            self
        }
    }

    /// The amount that a draw pays out.
    pub open spec fn payout(self) -> int {
        self.total_amount - self.pot
    }

    /// The participant that a draw by the administrator in the draw phase
    /// picks for `seed`, if any.
    pub open spec fn winner(self, seed: u32) -> Option<AccountId> {
        select(self.participants, self.excluded(), seed)
    }

    /// What a draw returns: refused when `caller` is not the administrator,
    /// then when the fund is in its collection phase, then when the probe
    /// picks nobody; otherwise the winner with the payout.
    pub open spec fn draw_outcome(self, caller: AccountId, seed: u32) -> Result<DrawWinner, Error> {
        if !self.is_admin(caller) {
            Err(Error::OnlyAdminCanDraw)
        } else if !self.finished {
            Err(Error::ChitFundNotFinished)
        } else {
            match self.winner(seed) {
                Some(victor) => Ok(
                    DrawWinner { victor: Some(victor), amount_won: self.payout() as u128 },
                ),
                None => Err(Error::FailedToGetWinner),
            }
        }
    }

    /// The fund after a draw: on success the excluded winners followed by
    /// the new one; unchanged on failure.
    pub open spec fn after_draw(self, caller: AccountId, seed: u32) -> FundView {
        match self.draw_outcome(caller, seed) {
            Ok(event) => FundView {
                used_indexes: self.excluded().push(event.victor->0),
                ..self
            },
            Err(_) => self,
        }
    }
}

} // verus!
