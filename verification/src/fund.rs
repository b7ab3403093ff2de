use vstd::prelude::*;
use crate::account::AccountId;
use crate::events::{CycleEnded, DrawWinner, Error, FundDeposited, JoinedChitFund, NewCycleBegan};
use crate::model::{select, FundView};

verus! {

/// The fund: one per deployment, driven by one call at a time.
pub struct ChitFund {
    pub admin: AccountId,
    pub max_participants: u32,
    pub monthly_contribution: u128,
    pub current_round: u32,
    pub pot: u128,
    pub total_amount: u128,
    pub participants: Vec<AccountId>,
    pub used_indexes: Vec<AccountId>,
    pub finished: bool,
}

impl View for ChitFund {
    type V = FundView;

    open spec fn view(&self) -> FundView {
        FundView {
            admin: self.admin,
            max_participants: self.max_participants as nat,
            monthly_contribution: self.monthly_contribution as nat,
            current_round: self.current_round as nat,
            pot: self.pot as nat,
            total_amount: self.total_amount as nat,
            participants: self.participants@,
            used_indexes: self.used_indexes@,
            finished: self.finished,
        }
    }
}

/// Whether `account` occurs in `list`.
pub fn contains_account(list: &Vec<AccountId>, account: AccountId) -> (found: bool)
    ensures
        found == list@.contains(account),
{
    let mut i: usize = 0;
    while i < list.len()
        invariant
            i <= list.len(),
            forall|j: int| 0 <= j < i ==> list@[j] != account,
        decreases list.len() - i,
    {
        if list[i] == account {
            return true;
        }
        i += 1;
    }
    false
}

/// Whether no account occurs twice in `list`.
pub fn has_no_duplicates(list: &Vec<AccountId>) -> (distinct: bool)
    ensures
        distinct == list@.no_duplicates(),
{
    let mut i: usize = 0;
    while i < list.len()
        invariant
            i <= list.len(),
            forall|a: int, b: int| 0 <= a < b < i ==> list@[a] != list@[b],
        decreases list.len() - i,
    {
        let mut j: usize = 0;
        while j < i
            invariant
                j <= i < list.len(),
                forall|a: int| 0 <= a < j ==> list@[a] != list@[i as int],
            decreases i - j,
        {
            if list[j] == list[i] {
                return false;
            }
            j += 1;
        }
        i += 1;
    }
    true
}

/// Whether every account of `part` occurs in `whole`.
pub fn all_contained(part: &Vec<AccountId>, whole: &Vec<AccountId>) -> (inside: bool)
    ensures
        inside == (forall|i: int| 0 <= i < part@.len() ==> whole@.contains(#[trigger] part@[i])),
{
    let mut i: usize = 0;
    while i < part.len()
        invariant
            i <= part.len(),
            forall|k: int| 0 <= k < i ==> whole@.contains(#[trigger] part@[k]),
        decreases part.len() - i,
    {
        if !contains_account(whole, part[i]) {
            return false;
        }
        i += 1;
    }
    true
}

impl ChitFund {
    /// The invariant of the fund, stated over its view.
    pub open spec fn wf(&self) -> bool {
        self@.wf()
    }

    /// Tests the fund's invariant: nobody is enrolled twice, the list is
    /// within its bound, no winner is recorded twice, every winner is
    /// enrolled and the round counter is at least one.
    pub fn is_well_formed(&self) -> (ok: bool)
        ensures
            ok == self.wf(),
    {
        has_no_duplicates(&self.participants)
            && self.participants.len() <= self.max_participants as usize
            && has_no_duplicates(&self.used_indexes)
            && all_contained(&self.used_indexes, &self.participants)
            && self.current_round >= 1
    }

    /// A fund in its first round, collecting, with nobody enrolled.
    pub fn new(admin: AccountId, max_participants: u32, monthly_contribution: u128) -> (fund: ChitFund)
        ensures
            fund@ == FundView::initial(
                admin,
                max_participants as nat,
                monthly_contribution as nat,
            ),
            fund.wf(),
    {
        ChitFund {
            admin,
            max_participants,
            monthly_contribution,
            current_round: 1,
            pot: 0,
            total_amount: 0,
            participants: Vec::new(),
            used_indexes: Vec::new(),
            finished: false,
        }
    }

    /// Whether `caller` is the administrator.
    pub fn is_admin(&self, caller: AccountId) -> (yes: bool)
        ensures
            yes == self@.is_admin(caller),
    {
        caller == self.admin
    }

    /// Whether `caller` is enrolled.
    pub fn is_participant(&self, caller: AccountId) -> (yes: bool)
        ensures
            yes == self@.is_participant(caller),
    {
        contains_account(&self.participants, caller)
    }

    /// Enrols `caller` at the end of the list, unless the list is full, the
    /// fund is in its draw phase or `caller` is enrolled already (tested in
    /// that order). A refused call changes nothing.
    pub fn join(&mut self, caller: AccountId) -> (res: Result<JoinedChitFund, Error>)
        requires
            old(self).wf(),
        ensures
            res == old(self)@.join_outcome(caller),
            final(self)@ == old(self)@.after_join(caller),
            final(self).wf(),
    {
        if self.participants.len() >= self.max_participants as usize {
            return Err(Error::ParticipantsAlreadyFull);
        }
        if self.finished {
            return Err(Error::ChitFundHasFinished);
        }
        if contains_account(&self.participants, caller) {
            return Err(Error::AlreadyJoined);
        }
        self.participants.push(caller);
        proof {
            crate::laws::lemma_join_keeps_wf(old(self)@, caller);
        }
        Ok(JoinedChitFund { account: Some(caller) })
    }

    /// Copies the pot into the round total, empties it and returns the
    /// amount that was in it.
    pub fn close_round(&mut self) -> (amount: u128)
        ensures
            final(self)@ == old(self)@.snapshot(),
            amount == old(self).pot,
    {
        let amount = self.pot;
        self.total_amount = amount;
        self.pot = 0;
        amount
    }

    /// Takes the snapshot again when the collection reopens: the round total
    /// becomes whatever the pot holds at that moment, and the pot is emptied.
    pub fn open_round(&mut self) -> (amount: u128)
        ensures
            final(self)@ == old(self)@.snapshot(),
            amount == old(self).pot,
    {
        let amount = self.pot;
        self.total_amount = amount;
        self.pot = 0;
        amount
    }

    /// Adds `amount` to the pot, unless `caller` is not enrolled or the fund
    /// is in its draw phase (tested in that order). The amount is not held
    /// to the monthly contribution. A refused call changes nothing.
    pub fn deposit(&mut self, caller: AccountId, amount: u128) -> (res: Result<FundDeposited, Error>)
        requires
            old(self).wf(),
            old(self)@.deposit_outcome(caller, amount) is Ok ==> old(self).pot + amount <= u128::MAX,
        ensures
            res == old(self)@.deposit_outcome(caller, amount),
            final(self)@ == old(self)@.after_deposit(caller, amount),
            final(self).wf(),
            res is Ok ==> !old(self).finished && final(self).pot == old(self).pot + amount,
    {
        if !contains_account(&self.participants, caller) {
            return Err(Error::NotParticipant);
        }
        if self.finished {
            return Err(Error::ChitFundHasFinished);
        }
        self.pot = self.pot + amount;
        Ok(FundDeposited { account: Some(caller), amount })
    }

    /// Closes the collection: the pot becomes the round total, the round
    /// counter goes up by one and the draw phase starts. Refused unless the
    /// administrator calls during the collection phase (tested in that
    /// order). A refused call changes nothing.
    pub fn end_cycle(&mut self, caller: AccountId) -> (res: Result<CycleEnded, Error>)
        requires
            old(self).wf(),
            old(self)@.end_cycle_outcome(caller) is Ok ==> old(self).current_round < u32::MAX,
        ensures
            res == old(self)@.end_cycle_outcome(caller),
            final(self)@ == old(self)@.after_end_cycle(caller),
            final(self).wf(),
            res is Ok ==> {
                &&& final(self).total_amount == old(self).pot
                &&& final(self).pot == 0
                &&& final(self).current_round == old(self).current_round + 1
                &&& final(self).finished
            },
    {
        if caller != self.admin {
            return Err(Error::OnlyOwnerCanEndCycle);
        }
        if self.finished {
            return Err(Error::ChitFundAlreadyFinished);
        }
        self.close_round();
        self.current_round = self.current_round + 1;
        self.finished = true;
        Ok(CycleEnded { admin: Some(caller) })
    }

    /// Reopens the collection: the round total becomes the pot's current
    /// value, the pot is emptied and deposits are accepted again. Refused
    /// unless the administrator calls during the draw phase (tested in that
    /// order). A refused call changes nothing.
    pub fn begin_cycle(&mut self, caller: AccountId) -> (res: Result<NewCycleBegan, Error>)
        requires
            old(self).wf(),
        ensures
            res == old(self)@.begin_cycle_outcome(caller),
            final(self)@ == old(self)@.after_begin_cycle(caller),
            final(self).wf(),
    {
        if caller != self.admin {
            return Err(Error::OnlyOwnerCanBeginCycle);
        }
        if !self.finished {
            return Err(Error::ChitFundNotFinished);
        }
        self.open_round();
        self.finished = false;
        Ok(NewCycleBegan { admin: Some(caller) })
    }

    /// Probes the one position `block_number mod len` of `participants`. If
    /// the list is empty or the participant there is in `used_indexes`,
    /// nothing is picked and nothing changes; otherwise that participant is
    /// appended to `used_indexes` and returned.
    pub fn get_random_account(
        participants: &Vec<AccountId>,
        used_indexes: &mut Vec<AccountId>,
        block_number: u32,
    ) -> (picked: Option<AccountId>)
        ensures
            picked == select(participants@, old(used_indexes)@, block_number),
            final(used_indexes)@ == match picked {
                Some(winner) => old(used_indexes)@.push(winner),
                None => old(used_indexes)@,
            },
    {
        if participants.is_empty() {
            return None;
        }
        let idx: usize = (block_number as usize) % participants.len();
        let account_id = participants[idx];
        if contains_account(used_indexes, account_id) {
            None
        } else {
            used_indexes.push(account_id);
            Some(account_id)
        }
    }

    /// Draws a winner for the closed round. Refused unless the administrator
    /// calls during the draw phase (tested in that order). Then, if every
    /// participant has won since the last reset, the list of winners is
    /// emptied; the participant at `block_number mod len` is probed, and if
    /// that one has not won yet, it is recorded and owed the round total
    /// less the pot. Otherwise the draw fails. A failed call changes nothing.
    ///
    /// Where a winner is picked, the round total has to cover the pot. It
    /// does in every fund that the operations reach from a new one, where
    /// the pot is empty throughout the draw phase.
    pub fn draw(&mut self, caller: AccountId, block_number: u32) -> (res: Result<DrawWinner, Error>)
        requires
            old(self).wf(),
            old(self)@.draw_outcome(caller, block_number) is Ok ==> old(self)@.covered(),
        ensures
            res == old(self)@.draw_outcome(caller, block_number),
            final(self)@ == old(self)@.after_draw(caller, block_number),
            final(self).wf(),
    {
        if caller != self.admin {
            return Err(Error::OnlyAdminCanDraw);
        }
        if !self.finished {
            return Err(Error::ChitFundNotFinished);
        }
        if self.used_indexes.len() == self.participants.len() {
            self.used_indexes.clear();
        }
        proof {
            crate::laws::lemma_draw_keeps_wf(old(self)@, caller, block_number);
        }
        match ChitFund::get_random_account(&self.participants, &mut self.used_indexes, block_number) {
            Some(winner) => {
                let amount = self.total_amount - self.pot;
                Ok(DrawWinner { victor: Some(winner), amount_won: amount })
            },
            None => {
                assert(self.used_indexes@ =~= old(self).used_indexes@);
                Err(Error::FailedToGetWinner)
            },
        }
    }
}

} // verus!
