use vstd::prelude::*;
use crate::account::AccountId;
use crate::events::Error;
use crate::fund::ChitFund;
use crate::model::FundView;

verus! {

/// Every fund that the machine holds is within range.
pub proof fn lemma_fund_in_range(fund: ChitFund)
    ensures
        fund@.in_range(),
{
}

/// A join, accepted or refused, leaves a well-formed fund well-formed.
pub proof fn lemma_join_keeps_wf(s: FundView, caller: AccountId)
    requires
        s.wf(),
    ensures
        s.after_join(caller).wf(),
{
    let t = s.after_join(caller);
    if s.join_outcome(caller) is Ok {
        assert forall|i: int| 0 <= i < t.used_indexes.len() implies t.participants.contains(
            #[trigger] t.used_indexes[i],
        ) by {
            let k = choose|k: int| 0 <= k < s.participants.len() && s.participants[k] == s.used_indexes[i];
            assert(t.participants[k] == s.used_indexes[i]);
        }
    }
}

/// A draw, successful or not, leaves a well-formed fund well-formed.
pub proof fn lemma_draw_keeps_wf(s: FundView, caller: AccountId, seed: u32)
    requires
        s.wf(),
    ensures
        s.after_draw(caller, seed).wf(),
{
    let t = s.after_draw(caller, seed);
    if let Ok(event) = s.draw_outcome(caller, seed) {
        let victor = event.victor->0;
        let base = s.excluded();
        assert(s.winner(seed) == Some(victor));
        assert(!base.contains(victor));
        let idx = seed as int % s.participants.len() as int;
        assert(s.participants[idx] == victor);
        assert(s.participants.contains(victor));
        assert(t.used_indexes == base.push(victor));
        assert forall|i: int, j: int|
            0 <= i < t.used_indexes.len() && 0 <= j < t.used_indexes.len() && i != j implies t.used_indexes[i]
            != t.used_indexes[j] by {
            if i < base.len() && j < base.len() {
            } else if i < base.len() {
                assert(base.contains(base[i]));
            } else {
                assert(base.contains(base[j]));
            }
        }
        assert forall|i: int| 0 <= i < t.used_indexes.len() implies t.participants.contains(
            #[trigger] t.used_indexes[i],
        ) by {
            if i < base.len() {
                assert(base[i] == s.used_indexes[i]);
            }
        }
    }
}

/// A deposit, an end of cycle and a begin of cycle, accepted or refused,
/// leave a well-formed fund well-formed.
pub proof fn lemma_rounds_keep_wf(s: FundView, caller: AccountId, amount: u128)
    requires
        s.wf(),
    ensures
        s.after_deposit(caller, amount).wf(),
        s.after_end_cycle(caller).wf(),
        s.after_begin_cycle(caller).wf(),
{
}

/// A new fund is settled, every operation keeps a fund settled, and in a
/// settled fund the round total covers the pot whenever a draw can succeed.
pub proof fn lemma_settled_is_kept(s: FundView, caller: AccountId, amount: u128, seed: u32)
    requires
        s.settled(),
    ensures
        FundView::initial(s.admin, s.max_participants, s.monthly_contribution).settled(),
        s.after_join(caller).settled(),
        s.after_deposit(caller, amount).settled(),
        s.after_end_cycle(caller).settled(),
        s.after_begin_cycle(caller).settled(),
        s.after_draw(caller, seed).settled(),
        s.draw_outcome(caller, seed) is Ok ==> s.covered(),
{
}

/// The fund after the callers of `callers` have each tried to join, in order.
pub open spec fn after_joins(s: FundView, callers: Seq<AccountId>) -> FundView
    decreases callers.len(),
{
    if callers.len() == 0 {
        s
    } else {
        after_joins(s, callers.drop_last()).after_join(callers.last())
    }
}

/// How many more participants the fund can take.
pub open spec fn room(s: FundView) -> nat {
    if s.participants.len() <= s.max_participants {
        (s.max_participants - s.participants.len()) as nat
    } else {
        0
    }
}

/// The shorter of two lengths.
pub open spec fn at_most(n: nat, limit: nat) -> nat {
    if n <= limit {
        n
    } else {
        limit
    }
}

/// When distinct callers, none of them enrolled, join a collecting fund one
/// after the other, exactly the first ones that find room are appended, in
/// order; the list never grows past the bound and never holds a duplicate;
/// nothing else changes.
pub proof fn lemma_join_sequence(s: FundView, callers: Seq<AccountId>)
    requires
        s.wf(),
        !s.finished,
        callers.no_duplicates(),
        forall|i: int| 0 <= i < callers.len() ==> !s.participants.contains(#[trigger] callers[i]),
    ensures
        after_joins(s, callers) == (FundView {
            participants: s.participants + callers.take(
                at_most(callers.len(), room(s)) as int,
            ),
            ..s
        }),
        after_joins(s, callers).wf(),
        after_joins(s, callers).participants.len() <= s.max_participants,
        after_joins(s, callers).participants.no_duplicates(),
    decreases callers.len(),
{
    if callers.len() == 0 {
        assert(s.participants + callers.take(0) =~= s.participants);
    } else {
        let front = callers.drop_last();
        let last = callers.last();
        assert forall|i: int| 0 <= i < front.len() implies !s.participants.contains(
            #[trigger] front[i],
        ) by {
            assert(front[i] == callers[i]);
        }
        assert(front.no_duplicates()) by {
            assert forall|i: int, j: int| 0 <= i < front.len() && 0 <= j < front.len() && i != j implies front[i]
                != front[j] by {
                assert(front[i] == callers[i] && front[j] == callers[j]);
            }
        }
        lemma_join_sequence(s, front);
        let mid = after_joins(s, front);
        let kept = at_most(front.len(), room(s)) as int;
        lemma_join_keeps_wf(mid, last);
        if front.len() < room(s) {
            assert(kept == front.len());
            assert(front.take(kept) =~= front);
            assert(!mid.participants.contains(last)) by {
                if mid.participants.contains(last) {
                    let k = choose|k: int| 0 <= k < mid.participants.len() && mid.participants[k] == last;
                    if k < s.participants.len() {
                        assert(s.participants[k] == last);
                        assert(s.participants.contains(callers[callers.len() - 1]));
                    } else {
                        let m = k - s.participants.len();
                        assert(callers[m] == callers[callers.len() - 1]);
                    }
                }
            }
            assert(mid.join_outcome(last) is Ok);
            assert(callers.take(callers.len() as int) =~= callers);
            assert(mid.participants.push(last) =~= s.participants + callers);
        } else {
            assert(mid.join_outcome(last) is Err);
            assert(callers.take(room(s) as int) =~= front.take(room(s) as int));
        }
    }
}

/// Once distinct callers have filled a collecting fund, the next distinct
/// caller is refused because the fund is full; while there is room, the
/// next distinct caller is enrolled.
pub proof fn lemma_join_after_sequence(s: FundView, callers: Seq<AccountId>, next: AccountId)
    requires
        s.wf(),
        !s.finished,
        callers.push(next).no_duplicates(),
        forall|i: int| 0 <= i < callers.len() ==> !s.participants.contains(#[trigger] callers[i]),
        !s.participants.contains(next),
    ensures
        callers.len() >= room(s) ==> after_joins(s, callers).join_outcome(next) == Err::<
            crate::events::JoinedChitFund,
            Error,
        >(Error::ParticipantsAlreadyFull),
        callers.len() < room(s) ==> after_joins(s, callers).join_outcome(next) is Ok,
{
    let all = callers.push(next);
    assert(all.drop_last() =~= callers);
    assert forall|i: int| 0 <= i < all.len() implies !s.participants.contains(#[trigger] all[i]) by {
        if i < callers.len() {
            assert(all[i] == callers[i]);
        }
    }
    assert(callers.no_duplicates()) by {
        assert forall|i: int, j: int| 0 <= i < callers.len() && 0 <= j < callers.len() && i != j implies callers[i]
            != callers[j] by {
            assert(all[i] == callers[i] && all[j] == callers[j]);
        }
    }
    lemma_join_sequence(s, callers);
    lemma_join_sequence(s, all);
    let mid = after_joins(s, callers);
    if callers.len() < room(s) {
        assert(after_joins(s, all) == mid.after_join(next));
        assert(after_joins(s, all).participants.len() == s.participants.len() + callers.len() + 1);
        assert(mid.participants.len() == s.participants.len() + callers.len());
    }
}

/// An accepted deposit happens in the collection phase, adds exactly the
/// attached amount to the pot (so a positive amount raises it) and touches
/// nothing else. No deposit is accepted in the draw phase.
pub proof fn lemma_deposit_adds_exactly(s: FundView, caller: AccountId, amount: u128)
    ensures
        s.deposit_outcome(caller, amount) is Ok ==> {
            &&& !s.finished
            &&& s.after_deposit(caller, amount).pot == s.pot + amount
            &&& (amount > 0 ==> s.after_deposit(caller, amount).pot > s.pot)
            &&& s.after_deposit(caller, amount) == (FundView { pot: s.pot + amount as nat, ..s })
        },
        s.finished ==> s.deposit_outcome(caller, amount) is Err && s.after_deposit(caller, amount) == s,
{
}

/// After an accepted end of cycle the round total is the pot as it was, the
/// pot is empty, the round counter is one higher and the fund is in its
/// draw phase.
pub proof fn lemma_end_cycle_closes_round(s: FundView, caller: AccountId)
    requires
        s.end_cycle_outcome(caller) is Ok,
    ensures
        s.after_end_cycle(caller).total_amount == s.pot,
        s.after_end_cycle(caller).pot == 0,
        s.after_end_cycle(caller).current_round == s.current_round + 1,
        s.after_end_cycle(caller).finished,
        s.after_end_cycle(caller).participants == s.participants,
        s.after_end_cycle(caller).used_indexes == s.used_indexes,
{
}

/// The winner of a successful draw is a participant outside the excluded
/// winners, is recorded as a winner afterwards, and is owed the round total
/// less the pot. Where no reset was due, the winner had not been recorded
/// before the call.
pub proof fn lemma_draw_winner(s: FundView, caller: AccountId, seed: u32)
    requires
        s.wf(),
        s.in_range(),
        s.covered(),
        s.draw_outcome(caller, seed) is Ok,
    ensures
        ({
            let event = s.draw_outcome(caller, seed)->Ok_0;
            let victor = event.victor->0;
            &&& event.victor is Some
            &&& s.participants.contains(victor)
            &&& !s.excluded().contains(victor)
            &&& !s.exhausted() ==> !s.used_indexes.contains(victor)
            &&& s.after_draw(caller, seed).used_indexes.contains(victor)
            &&& event.amount_won == s.total_amount - s.pot
            &&& s.settled() ==> event.amount_won == s.total_amount
        }),
{
    let event = s.draw_outcome(caller, seed)->Ok_0;
    let victor = event.victor->0;
    assert(s.winner(seed) == Some(victor));
    let idx = seed as int % s.participants.len() as int;
    assert(s.participants[idx] == victor);
    let after = s.after_draw(caller, seed).used_indexes;
    assert(after == s.excluded().push(victor));
    assert(after[after.len() - 1] == victor);
}

/// A draw that the guards let through empties the list of winners exactly
/// when every participant had won: then a successful draw leaves the new
/// winner alone in the list. Otherwise the earlier winners stay and the new
/// one is appended. A failed draw leaves the fund as it was.
pub proof fn lemma_draw_reset(s: FundView, caller: AccountId, seed: u32)
    requires
        s.is_admin(caller),
        s.finished,
    ensures
        s.draw_outcome(caller, seed) is Ok && s.exhausted() ==> s.after_draw(
            caller,
            seed,
        ).used_indexes =~= seq![s.winner(seed)->0],
        s.draw_outcome(caller, seed) is Ok && !s.exhausted() ==> s.after_draw(
            caller,
            seed,
        ).used_indexes == s.used_indexes.push(s.winner(seed)->0),
        s.draw_outcome(caller, seed) is Err ==> s.after_draw(caller, seed) == s,
        s.exhausted() && s.participants.len() > 0 ==> s.draw_outcome(caller, seed) is Ok,
{
}

/// In a well-formed fund the winners are never more than the participants,
/// and a reset is due exactly when every participant has won.
pub proof fn lemma_exhausted_means_all_won(s: FundView)
    requires
        s.wf(),
    ensures
        s.used_indexes.len() <= s.participants.len(),
        s.exhausted() <==> (forall|i: int|
            0 <= i < s.participants.len() ==> s.used_indexes.contains(#[trigger] s.participants[i])),
{
    let winners = s.used_indexes.to_set();
    let enrolled = s.participants.to_set();
    s.used_indexes.unique_seq_to_set();
    s.participants.unique_seq_to_set();
    vstd::seq_lib::seq_to_set_is_finite(s.used_indexes);
    vstd::seq_lib::seq_to_set_is_finite(s.participants);
    assert(winners.subset_of(enrolled)) by {
        assert forall|a: AccountId| winners.contains(a) implies enrolled.contains(a) by {
            let i = choose|i: int| 0 <= i < s.used_indexes.len() && s.used_indexes[i] == a;
            assert(s.participants.contains(s.used_indexes[i]));
        }
    }
    vstd::set_lib::lemma_len_subset(winners, enrolled);
    if s.exhausted() {
        vstd::set_lib::lemma_subset_equality(winners, enrolled);
        assert forall|i: int| 0 <= i < s.participants.len() implies s.used_indexes.contains(
            #[trigger] s.participants[i],
        ) by {
            assert(s.participants.contains(s.participants[i]));
            assert(enrolled.contains(s.participants[i]));
            assert(winners.contains(s.participants[i]));
        }
    }
    if forall|i: int|
        0 <= i < s.participants.len() ==> s.used_indexes.contains(#[trigger] s.participants[i]) {
        assert(enrolled.subset_of(winners)) by {
            assert forall|a: AccountId| enrolled.contains(a) implies winners.contains(a) by {
                let i = choose|i: int| 0 <= i < s.participants.len() && s.participants[i] == a;
                assert(s.used_indexes.contains(s.participants[i]));
            }
        }
        vstd::set_lib::lemma_len_subset(enrolled, winners);
    }
}

/// A draw changes nothing but the list of winners.
pub proof fn lemma_draw_touches_winners_only(s: FundView, caller: AccountId, seed: u32)
    ensures
        s.after_draw(caller, seed) == (FundView {
            used_indexes: s.after_draw(caller, seed).used_indexes,
            ..s
        }),
{
}

/// Ending a cycle and beginning the next brings the fund back to its
/// collection phase with the same participants and winners; the round
/// counter is one higher after the end and the begin leaves it there; pot
/// and round total are both zero.
pub proof fn lemma_end_then_begin(s: FundView, caller: AccountId)
    requires
        s.end_cycle_outcome(caller) is Ok,
    ensures
        s.after_end_cycle(caller).begin_cycle_outcome(caller) is Ok,
        ({
            let closed = s.after_end_cycle(caller);
            let reopened = closed.after_begin_cycle(caller);
            &&& !reopened.finished
            &&& reopened.participants == s.participants
            &&& reopened.used_indexes == s.used_indexes
            &&& reopened.current_round == closed.current_round
            &&& reopened.current_round == s.current_round + 1
            &&& reopened.pot == 0
            &&& reopened.total_amount == 0
            &&& reopened.admin == s.admin
            &&& reopened.max_participants == s.max_participants
            &&& reopened.monthly_contribution == s.monthly_contribution
        }),
{
}

} // verus!
