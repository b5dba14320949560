//! When each call of the contract is accepted, stated directly over the
//! contract's fields, the caller and the ledger time.
use vstd::prelude::*;

use crate::escrow::{
    approve_rejection, create_rejection, deadline_for, deposit_rejection, deposited, issue_rejection,
    milestone_replaced, new_milestone, rated, refusal_write, release_rejection, released_outcome,
    resolve_rejection, resolved, set_schedule_rejection, stamped, timeout_outcome,
};
use crate::ledger::{amounts_outcome, lemma_amounts_accepted, lemma_amounts_prefix_error, seq_sum};
use crate::schedule::{lemma_sequence_accepted, sequence_result, single_schedule_result};
use crate::types::{
    Address, ContractStatus, EscrowContractData, EscrowError, Milestone, MilestoneSchedule, Rejection, Release,
    ReleaseAuthorization, ReputationRecord, TimeoutCheck, MAX_SCHEDULE_DESCRIPTION_LEN, MAX_SCHEDULE_TITLE_LEN,
};

verus! {

/// `o` names the address `a`.
pub open spec fn names(o: Option<Address>, a: Seq<u8>) -> bool {
    o is Some && o.unwrap()@ == a
}

/// Ledger time `now` is strictly past the deadline `deadline`, if any.
pub open spec fn past(deadline: Option<u64>, now: u64) -> bool {
    deadline is Some && now > deadline.unwrap()
}

/// The caller's role allows it to act on releases of `c`: the client unless
/// only the arbiter may, the arbiter unless only the client may.
pub open spec fn acts_for_release(c: EscrowContractData, caller: Seq<u8>) -> bool {
    ||| (c.release_auth != ReleaseAuthorization::ArbiterOnly && caller == c.client@)
    ||| (c.release_auth != ReleaseAuthorization::ClientOnly && names(c.arbiter, caller))
}

/// The approval recorded on a milestone is the one its release needs: the
/// client's under ClientOnly and MultiSig, the arbiter's under ArbiterOnly,
/// either one under ClientAndArbiter.
pub open spec fn approval_suffices(c: EscrowContractData, approved_by: Option<Address>) -> bool {
    approved_by is Some && {
        let a = approved_by.unwrap()@;
        ||| (c.release_auth != ReleaseAuthorization::ArbiterOnly && a == c.client@)
        ||| (c.release_auth != ReleaseAuthorization::ClientOnly && c.release_auth
            != ReleaseAuthorization::MultiSig && names(c.arbiter, a))
    }
}

/// A deposit is accepted exactly when it is positive, comes from the client
/// of a contract still in `Created`, and keeps the deposits within the total.
pub proof fn law_deposit_accepted(c: EscrowContractData, caller: Seq<u8>, amount: i128)
    ensures
        deposit_rejection(Some(c), caller, amount) is None <==> (amount > 0 && caller == c.client@ && c.status
            == ContractStatus::Created && c.funded_amount + amount <= c.total_amount && c.funded_amount + amount
            <= i128::MAX),
        deposit_rejection(None, caller, amount) is Some,
{
}

/// An approval is accepted exactly on a `Funded` contract, for an existing,
/// unreleased milestone whose deadline has not passed, from a party allowed
/// to act on releases that has not already approved it.
pub proof fn law_approval_accepted(c: EscrowContractData, caller: Seq<u8>, milestone_id: u32, now: u64)
    ensures
        approve_rejection(Some(c), caller, milestone_id, now) is None <==> ({
            let m = c.milestones@[milestone_id as int];
            &&& c.status == ContractStatus::Funded
            &&& milestone_id < c.milestones@.len()
            &&& acts_for_release(c, caller)
            &&& !m.released
            &&& !names(m.approved_by, caller)
            &&& !past(m.deadline_at, now)
        }),
        c.status != ContractStatus::Funded ==> approve_rejection(Some(c), caller, milestone_id, now) == Some(
            Rejection::NotFundedForApproval,
        ),
        approve_rejection(None, caller, milestone_id, now) is Some,
{
}

/// A release is accepted only on a `Funded` contract, for an existing,
/// unreleased milestone whose deadline has not passed, from a party allowed
/// to act, when the milestone carries the approval its policy needs and the
/// escrowed balance covers it; and, short of arithmetic limits, always then.
pub proof fn law_release_accepted(c: EscrowContractData, caller: Seq<u8>, milestone_id: u32, now: u64, pending: u32)
    ensures
        release_rejection(Some(c), caller, milestone_id, now, pending) is None <==> ({
            let i = milestone_id as int;
            let m = c.milestones@[i];
            &&& c.status == ContractStatus::Funded
            &&& milestone_id < c.milestones@.len()
            &&& acts_for_release(c, caller)
            &&& !m.released
            &&& !past(m.deadline_at, now)
            &&& approval_suffices(c, m.approved_by)
            &&& i128::MIN <= c.funded_amount - c.released_amount <= i128::MAX
            &&& c.funded_amount - c.released_amount >= m.amount
            &&& i128::MIN <= c.released_amount + m.amount <= i128::MAX
            &&& c.released_milestones < u32::MAX
            &&& (forall|j: int| 0 <= j < c.milestones@.len() && j != i ==> #[trigger] c.milestones@[j].released)
                ==> pending < u32::MAX
        }),
        release_rejection(Some(c), caller, milestone_id, now, pending) is None
            ==> c.milestones@[milestone_id as int].approved_by is Some,
        release_rejection(None, caller, milestone_id, now, pending) is Some,
{
    let i = milestone_id as int;
    if milestone_id < c.milestones@.len() {
        let u = c.milestones@.update(i, crate::escrow::released_milestone(c, i));
        assert((forall|j: int| 0 <= j < u.len() ==> #[trigger] u[j].released) <==> (forall|j: int|
            0 <= j < c.milestones@.len() && j != i ==> #[trigger] c.milestones@[j].released)) by {
            if forall|j: int| 0 <= j < c.milestones@.len() && j != i ==> #[trigger] c.milestones@[j].released {
                assert forall|j: int| 0 <= j < u.len() implies #[trigger] u[j].released by {
                    if j != i {
                        assert(c.milestones@[j].released);
                    }
                }
            }
            if forall|j: int| 0 <= j < u.len() ==> #[trigger] u[j].released {
                assert forall|j: int| 0 <= j < c.milestones@.len() && j != i implies #[trigger] c.milestones@[j].released by {
                    assert(u[j].released);
                }
            }
        }
    }
}

/// An accepted release marks the milestone released, adds its amount to the
/// released total, and completes the contract, handing back one more credit,
/// exactly when every other milestone was already released; otherwise the
/// contract stays `Funded` and no credit is handed back.
pub proof fn law_release_completes(
    c: EscrowContractData,
    caller: Seq<u8>,
    milestone_id: u32,
    now: u64,
    pending: u32,
    out: Release,
)
    requires
        release_rejection(Some(c), caller, milestone_id, now, pending) is None,
        released_outcome(c, milestone_id as int, pending, out),
    ensures
        out.contract.milestones@[milestone_id as int].released,
        out.contract.released_amount == c.released_amount + c.milestones@[milestone_id as int].amount,
        out.contract.released_milestones == c.released_milestones + 1,
        out.contract.funded_amount == c.funded_amount,
        (out.contract.status == ContractStatus::Completed) <==> (forall|j: int|
            0 <= j < c.milestones@.len() && j != milestone_id ==> #[trigger] c.milestones@[j].released),
        out.contract.status != ContractStatus::Completed ==> out.contract.status == ContractStatus::Funded
            && out.pending_credits is None,
        out.contract.status == ContractStatus::Completed ==> out.pending_credits == Some(
            (pending + 1) as u32,
        ) && pending + 1 <= u32::MAX,
{
    let i = milestone_id as int;
    let u = out.contract.milestones@;
    if forall|j: int| 0 <= j < c.milestones@.len() && j != i ==> #[trigger] c.milestones@[j].released {
        assert forall|j: int| 0 <= j < u.len() implies #[trigger] u[j].released by {
            if j != i {
                assert(c.milestones@[j].released);
            }
        }
    }
    if out.contract.status == ContractStatus::Completed {
        assert forall|j: int| 0 <= j < c.milestones@.len() && j != i implies #[trigger] c.milestones@[j].released by {
            assert(u[j].released);
        }
    }
}

/// A dispute is resolved exactly by its rightful resolver (the arbiter if
/// there is one, else the client) once no unreleased milestone is past its
/// deadline; released milestones never block it. It returns the contract to
/// `Completed` when every milestone is released, else to `Funded`.
pub proof fn law_resolution_accepted(c: EscrowContractData, caller: Seq<u8>, now: u64)
    ensures
        resolve_rejection(Some(c), caller, now) is None <==> ({
            &&& c.status == ContractStatus::Disputed
            &&& if c.arbiter is Some {
                names(c.arbiter, caller)
            } else {
                caller == c.client@
            }
            &&& forall|i: int|
                0 <= i < c.milestones@.len() ==> (#[trigger] c.milestones@[i]).released || !past(
                    c.milestones@[i].deadline_at,
                    now,
                )
        }),
        resolved(c).status == ContractStatus::Completed <==> (forall|i: int|
            0 <= i < c.milestones@.len() ==> #[trigger] c.milestones@[i].released),
        resolved(c).status != ContractStatus::Completed ==> resolved(c).status == ContractStatus::Funded,
        resolve_rejection(None, caller, now) is Some,
{
    if c.status == ContractStatus::Disputed {
        if forall|i: int|
            0 <= i < c.milestones@.len() ==> (#[trigger] c.milestones@[i]).released || !past(
                c.milestones@[i].deadline_at,
                now,
            ) {
            assert forall|i: int| 0 <= i < c.milestones@.len() implies !(!(#[trigger] c.milestones@[i]).released
                && crate::escrow::is_expired(c.milestones@[i], now)) by {
                assert(c.milestones@[i].released || !past(c.milestones@[i].deadline_at, now));
            }
        }
    }
}

/// The timeout check reports a milestone as expired exactly when it is
/// unreleased and ledger time is past its deadline, and then writes the
/// contract as `Disputed` exactly when it was `Funded`.
pub proof fn law_timeout_reported(c: EscrowContractData, milestone_id: u32, now: u64, t: TimeoutCheck)
    requires
        timeout_outcome(c, milestone_id, now, t),
    ensures
        t.expired <==> (!c.milestones@[milestone_id as int].released && past(
            c.milestones@[milestone_id as int].deadline_at,
            now,
        )),
        t.updated is Some <==> (t.expired && c.status == ContractStatus::Funded),
        t.updated matches Some(w) ==> w.status == ContractStatus::Disputed && w.milestones == c.milestones
            && w.funded_amount == c.funded_amount && w.released_amount == c.released_amount,
{
}

/// A schedule whose title or description exceeds its limit is refused as too
/// long, whatever else it holds; one that fits is refused only for a due
/// date at or before ledger time.
pub proof fn law_schedule_limits(s: MilestoneSchedule, now: u64)
    ensures
        (s.title is Some && s.title.unwrap()@.len() > MAX_SCHEDULE_TITLE_LEN) ==> single_schedule_result(s, now)
            == Err::<(), EscrowError>(EscrowError::ScheduleStringTooLong),
        (s.description is Some && s.description.unwrap()@.len() > MAX_SCHEDULE_DESCRIPTION_LEN)
            ==> single_schedule_result(s, now) == Err::<(), EscrowError>(EscrowError::ScheduleStringTooLong),
        single_schedule_result(s, now) is Ok <==> ({
            &&& s.title is Some ==> s.title.unwrap()@.len() <= MAX_SCHEDULE_TITLE_LEN
            &&& s.description is Some ==> s.description.unwrap()@.len() <= MAX_SCHEDULE_DESCRIPTION_LEN
            &&& s.due_date is Some ==> s.due_date.unwrap() > now
        }),
{
}

/// Setting a schedule is accepted exactly for an existing, unreleased
/// milestone, with a schedule that fits its limits and is due strictly in the
/// future, strictly after the previous milestone's stored due date and
/// strictly before the next one's.
pub proof fn law_set_schedule_accepted(
    c: EscrowContractData,
    milestone_idx: u32,
    s: MilestoneSchedule,
    now: u64,
    previous: Option<MilestoneSchedule>,
    next: Option<MilestoneSchedule>,
)
    ensures
        set_schedule_rejection(Some(c), milestone_idx, s, now, previous, next) is None <==> ({
            &&& milestone_idx < c.milestones@.len()
            &&& !c.milestones@[milestone_idx as int].released
            &&& s.title is Some ==> s.title.unwrap()@.len() <= MAX_SCHEDULE_TITLE_LEN
            &&& s.description is Some ==> s.description.unwrap()@.len() <= MAX_SCHEDULE_DESCRIPTION_LEN
            &&& s.due_date is Some ==> s.due_date.unwrap() > now
            &&& (milestone_idx > 0 && previous is Some && previous.unwrap().due_date is Some && s.due_date is Some)
                ==> s.due_date.unwrap() > previous.unwrap().due_date.unwrap()
            &&& (milestone_idx + 1 < c.milestones@.len() && next is Some && next.unwrap().due_date is Some
                && s.due_date is Some) ==> s.due_date.unwrap() < next.unwrap().due_date.unwrap()
        }),
        set_schedule_rejection(None, milestone_idx, s, now, previous, next) is Some,
{
}

/// Reputation is issued exactly for a `Completed` contract not yet rated,
/// with a rating from 1 to 5, within the record's arithmetic limits.
pub proof fn law_issue_accepted(c: EscrowContractData, rating: i128, record: Option<ReputationRecord>)
    ensures
        issue_rejection(Some(c), rating, record) is None <==> ({
            let completed = if record is Some {
                record.unwrap().completed_contracts as int
            } else {
                0
            };
            let total = if record is Some {
                record.unwrap().total_rating as int
            } else {
                0
            };
            &&& c.status == ContractStatus::Completed
            &&& !c.reputation_issued
            &&& 1 <= rating <= 5
            &&& completed < u32::MAX
            &&& total + rating <= i128::MAX
        }),
        issue_rejection(None, rating, record) is Some,
{
}

/// A contract is created exactly when it has at least one milestone, all
/// amounts positive and their sum within `i128`, distinct client and
/// freelancer, a counter that can advance, and either no schedules or one per
/// milestone, each present schedule fitting its limits and due strictly in the
/// future, the due dates given strictly increasing.
pub proof fn law_create_accepted(
    stored_next_id: Option<u32>,
    now: u64,
    client: Seq<u8>,
    freelancer: Seq<u8>,
    amounts: Seq<i128>,
    schedules: Seq<Option<MilestoneSchedule>>,
)
    ensures
        create_rejection(stored_next_id, now, client, freelancer, amounts, schedules) is None <==> ({
            &&& amounts.len() > 0
            &&& client != freelancer
            &&& schedules.len() == 0 || schedules.len() == amounts.len()
            &&& forall|i: int|
                0 <= i < schedules.len() && #[trigger] schedules[i] is Some ==> {
                    let s = schedules[i].unwrap();
                    &&& s.title is Some ==> s.title.unwrap()@.len() <= MAX_SCHEDULE_TITLE_LEN
                    &&& s.description is Some ==> s.description.unwrap()@.len() <= MAX_SCHEDULE_DESCRIPTION_LEN
                    &&& s.due_date is Some ==> s.due_date.unwrap() > now
                }
            &&& forall|i: int, j: int|
                0 <= i < j < schedules.len() && #[trigger] schedules[i] is Some && #[trigger] schedules[j] is Some
                    && schedules[i].unwrap().due_date is Some && schedules[j].unwrap().due_date is Some
                    ==> schedules[i].unwrap().due_date.unwrap() < schedules[j].unwrap().due_date.unwrap()
            &&& forall|i: int| 0 <= i < amounts.len() ==> #[trigger] amounts[i] > 0
            &&& seq_sum(amounts) <= i128::MAX
            &&& (if stored_next_id is Some {
                stored_next_id.unwrap()
            } else {
                1u32
            }) < u32::MAX
        }),
        create_rejection(stored_next_id, now, client, freelancer, amounts, schedules) is None ==> (schedules.len()
            == 0 || schedules.len() == amounts.len()),
{
    lemma_sequence_accepted(schedules, now);
    lemma_amounts_accepted(amounts);
    assert(crate::schedule::each_schedule_valid(schedules, now) <==> forall|i: int|
        0 <= i < schedules.len() && #[trigger] schedules[i] is Some ==> {
            let s = schedules[i].unwrap();
            &&& s.title is Some ==> s.title.unwrap()@.len() <= MAX_SCHEDULE_TITLE_LEN
            &&& s.description is Some ==> s.description.unwrap()@.len() <= MAX_SCHEDULE_DESCRIPTION_LEN
            &&& s.due_date is Some ==> s.due_date.unwrap() > now
        });
    assert(crate::schedule::due_dates_increasing(schedules) <==> forall|i: int, j: int|
        0 <= i < j < schedules.len() && #[trigger] schedules[i] is Some && #[trigger] schedules[j] is Some
            && schedules[i].unwrap().due_date is Some && schedules[j].unwrap().due_date is Some
            ==> schedules[i].unwrap().due_date.unwrap() < schedules[j].unwrap().due_date.unwrap()) by {
        if crate::schedule::due_dates_increasing(schedules) {
            assert forall|i: int, j: int|
                0 <= i < j < schedules.len() && #[trigger] schedules[i] is Some && #[trigger] schedules[j] is Some
                    && schedules[i].unwrap().due_date is Some && schedules[j].unwrap().due_date is Some
                    implies schedules[i].unwrap().due_date.unwrap() < schedules[j].unwrap().due_date.unwrap() by {
                assert(crate::schedule::due_of(schedules[i]) is Some && crate::schedule::due_of(schedules[j]) is Some);
            }
        }
        if forall|i: int, j: int|
            0 <= i < j < schedules.len() && #[trigger] schedules[i] is Some && #[trigger] schedules[j] is Some
                && schedules[i].unwrap().due_date is Some && schedules[j].unwrap().due_date is Some
                ==> schedules[i].unwrap().due_date.unwrap() < schedules[j].unwrap().due_date.unwrap() {
            assert forall|i: int, j: int|
                0 <= i < j < schedules.len() && #[trigger] crate::schedule::due_of(schedules[i]) is Some
                    && #[trigger] crate::schedule::due_of(schedules[j]) is Some
                    implies crate::schedule::due_of(schedules[i]).unwrap() < crate::schedule::due_of(schedules[j]).unwrap() by {
                assert(schedules[i] is Some && schedules[j] is Some);
            }
        }
    }
}


/// An accepted deposit adds its amount to the funds and funds the contract
/// exactly when the deposits reach the total; nothing else changes.
pub proof fn law_deposit_result(c: EscrowContractData, caller: Seq<u8>, amount: i128)
    requires
        deposit_rejection(Some(c), caller, amount) is None,
    ensures
        deposited(c, amount).funded_amount == c.funded_amount + amount,
        deposited(c, amount).status == (if c.funded_amount + amount == c.total_amount {
            ContractStatus::Funded
        } else {
            ContractStatus::Created
        }),
        deposited(c, amount).milestones == c.milestones,
        deposited(c, amount).total_amount == c.total_amount,
        deposited(c, amount).released_amount == c.released_amount,
        deposited(c, amount).client == c.client,
        deposited(c, amount).freelancer == c.freelancer,
{
}

/// Replacing one milestone of a contract changes that milestone and nothing
/// else: the other milestones, the books and the status stay as they were.
pub proof fn law_milestone_replaced(old: EscrowContractData, c: EscrowContractData, i: int, m: Milestone)
    requires
        0 <= i < old.milestones@.len(),
        milestone_replaced(old, c, i, m),
    ensures
        c.milestones@.len() == old.milestones@.len(),
        c.milestones@[i] == m,
        forall|j: int| 0 <= j < old.milestones@.len() && j != i ==> #[trigger] c.milestones@[j] == old.milestones@[j],
        c.status == old.status,
        c.funded_amount == old.funded_amount,
        c.released_amount == old.released_amount,
        c.total_amount == old.total_amount,
        c.client == old.client,
        c.arbiter == old.arbiter,
{
}

/// A refused approval or release writes back exactly when its milestone was
/// past its deadline, and then only the contract's status, moved to
/// `Disputed`.
pub proof fn law_refusal_write(c: EscrowContractData, reason: Rejection)
    ensures
        refusal_write(Some(c), reason) is Some <==> reason == Rejection::MilestoneExpired,
        refusal_write(Some(c), reason) matches Some(w) ==> w.status == ContractStatus::Disputed && w.milestones
            == c.milestones && w.funded_amount == c.funded_amount && w.released_amount == c.released_amount
            && w.total_amount == c.total_amount && w.reputation_issued == c.reputation_issued,
{
}

/// Issued reputation counts one more completed contract, adds the rating to
/// the total and keeps it as the last rating, starting from an empty record
/// when none is stored.
pub proof fn law_issue_result(record: Option<ReputationRecord>, rating: i128)
    ensures
        rated(record, rating).last_rating == rating,
        record is None ==> rated(record, rating).completed_contracts == 1 && rated(record, rating).total_rating
            == rating,
        record matches Some(r) ==> (r.completed_contracts < u32::MAX && i128::MIN <= r.total_rating + rating <= i128::MAX)
            ==> rated(record, rating).completed_contracts == r.completed_contracts + 1 && rated(
            record,
            rating,
        ).total_rating == r.total_rating + rating,
{
}

/// A new contract's milestones start unreleased and unapproved, with the
/// given amount, and take as deadline the due date of their own schedule
/// when schedules are given; stored schedules carry the creation time.
pub proof fn law_new_milestones(
    amount: i128,
    schedules: Seq<Option<MilestoneSchedule>>,
    i: int,
    now: u64,
)
    requires
        0 <= i < schedules.len(),
    ensures
        new_milestone(amount, deadline_for(schedules, i)).amount == amount,
        !new_milestone(amount, deadline_for(schedules, i)).released,
        new_milestone(amount, deadline_for(schedules, i)).approved_by is None,
        new_milestone(amount, deadline_for(schedules, i)).approval_timestamp is None,
        new_milestone(amount, deadline_for(schedules, i)).deadline_at == (if schedules[i] is Some {
            schedules[i].unwrap().due_date
        } else {
            None
        }),
        deadline_for(Seq::<Option<MilestoneSchedule>>::empty(), i) is None,
        stamped(schedules[i], now) is Some <==> schedules[i] is Some,
        stamped(schedules[i], now) matches Some(st) ==> st.updated_at == now && st.due_date
            == schedules[i].unwrap().due_date && st.title == schedules[i].unwrap().title && st.description
            == schedules[i].unwrap().description,
{
}


/// When every schedule given fits its limits and is due in the future, the
/// only way a schedule sequence can fail is by due dates that do not
/// increase.
pub proof fn law_schedule_sequence_errors(s: Seq<Option<MilestoneSchedule>>, now: u64)
    requires
        forall|i: int|
            0 <= i < s.len() && #[trigger] s[i] is Some ==> {
                let x = s[i].unwrap();
                &&& x.title is Some ==> x.title.unwrap()@.len() <= MAX_SCHEDULE_TITLE_LEN
                &&& x.description is Some ==> x.description.unwrap()@.len() <= MAX_SCHEDULE_DESCRIPTION_LEN
                &&& x.due_date is Some ==> x.due_date.unwrap() > now
            },
    ensures
        sequence_result(s, now) is Ok || sequence_result(s, now) == Err::<(), EscrowError>(
            EscrowError::ScheduleDatesNotMonotonic,
        ),
    decreases s.len(),
{
    if s.len() > 0 {
        let p = s.drop_last();
        assert forall|i: int|
            0 <= i < p.len() && #[trigger] p[i] is Some implies {
                let x = p[i].unwrap();
                &&& x.title is Some ==> x.title.unwrap()@.len() <= MAX_SCHEDULE_TITLE_LEN
                &&& x.description is Some ==> x.description.unwrap()@.len() <= MAX_SCHEDULE_DESCRIPTION_LEN
                &&& x.due_date is Some ==> x.due_date.unwrap() > now
            } by {
            assert(s[i] == p[i]);
        }
        law_schedule_sequence_errors(p, now);
        assert(s[s.len() - 1] is Some ==> s[s.len() - 1] == s.last());
    }
}

/// With all amounts positive, the only way the amounts can be refused is
/// their sum overflowing.
proof fn lemma_positive_amounts_overflow_only(a: Seq<i128>)
    requires
        forall|i: int| 0 <= i < a.len() ==> #[trigger] a[i] > 0,
    ensures
        amounts_outcome(a) is Ok || amounts_outcome(a) == Err::<int, Rejection>(Rejection::ArithmeticOverflow),
    decreases a.len(),
{
    if a.len() > 0 {
        let p = a.drop_last();
        assert forall|i: int| 0 <= i < p.len() implies #[trigger] p[i] > 0 by {
            assert(a[i] > 0);
        }
        lemma_positive_amounts_overflow_only(p);
        assert(a[a.len() - 1] > 0);
    }
}

/// Which amount check refuses a contract: a non-positive amount, when the
/// amounts before it are positive and fit, is refused as non-positive;
/// positive amounts whose sum exceeds `i128` are refused as an overflow.
pub proof fn law_amount_rejections(a: Seq<i128>, k: int)
    ensures
        (0 <= k < a.len() && a[k] <= 0 && (forall|i: int| 0 <= i < k ==> #[trigger] a[i] > 0) && seq_sum(a.take(k))
            <= i128::MAX) ==> amounts_outcome(a) == Err::<int, Rejection>(Rejection::NonPositiveMilestoneAmount),
        ((forall|i: int| 0 <= i < a.len() ==> #[trigger] a[i] > 0) && seq_sum(a) > i128::MAX) ==> amounts_outcome(a)
            == Err::<int, Rejection>(Rejection::ArithmeticOverflow),
{
    lemma_amounts_accepted(a);
    if forall|i: int| 0 <= i < a.len() ==> #[trigger] a[i] > 0 {
        lemma_positive_amounts_overflow_only(a);
    }
    if 0 <= k < a.len() && a[k] <= 0 && (forall|i: int| 0 <= i < k ==> #[trigger] a[i] > 0) && seq_sum(a.take(k))
        <= i128::MAX {
        let t = a.take(k);
        assert forall|i: int| 0 <= i < t.len() implies #[trigger] t[i] > 0 by {
            assert(a[i] > 0);
        }
        lemma_amounts_accepted(t);
        let t1 = a.take(k + 1);
        assert(t1.drop_last() =~= t);
        assert(t1.last() == a[k]);
        lemma_amounts_prefix_error(a, k + 1);
    }
}

/// A contract whose schedules are each valid but whose due dates do not
/// increase is refused for that reason, not as invalid metadata.
pub proof fn law_create_order_rejection(
    stored_next_id: Option<u32>,
    now: u64,
    client: Seq<u8>,
    freelancer: Seq<u8>,
    amounts: Seq<i128>,
    schedules: Seq<Option<MilestoneSchedule>>,
    i: int,
    j: int,
)
    requires
        amounts.len() > 0,
        client != freelancer,
        schedules.len() == amounts.len(),
        forall|k: int|
            0 <= k < schedules.len() && #[trigger] schedules[k] is Some ==> {
                let x = schedules[k].unwrap();
                &&& x.title is Some ==> x.title.unwrap()@.len() <= MAX_SCHEDULE_TITLE_LEN
                &&& x.description is Some ==> x.description.unwrap()@.len() <= MAX_SCHEDULE_DESCRIPTION_LEN
                &&& x.due_date is Some ==> x.due_date.unwrap() > now
            },
        0 <= i < j < schedules.len(),
        schedules[i] is Some && schedules[j] is Some,
        schedules[i].unwrap().due_date is Some && schedules[j].unwrap().due_date is Some,
        schedules[j].unwrap().due_date.unwrap() <= schedules[i].unwrap().due_date.unwrap(),
    ensures
        create_rejection(stored_next_id, now, client, freelancer, amounts, schedules) == Some(
            Rejection::DueDatesNotIncreasing,
        ),
{
    law_schedule_sequence_errors(schedules, now);
    lemma_sequence_accepted(schedules, now);
    assert(crate::schedule::due_of(schedules[i]) is Some && crate::schedule::due_of(schedules[j]) is Some);
}

} // verus!
