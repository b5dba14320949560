//! The escrow contract's entry points. Each takes what the contract reads
//! from its storage and returns what it writes back, or the rejection that
//! aborts the call (an aborted call writes nothing). A refused approval or
//! release of a milestone past its deadline is the one refusal that still
//! writes: the contract moved to `Disputed`.
use vstd::prelude::*;

use crate::ledger::{
    all_released, amount_of, amounts_outcome, contract_wf, lemma_amounts_accepted, lemma_amounts_prefix_error,
    lemma_release_books, lemma_same_books, lemma_sum_by_positive, lemma_sum_by_zero, lemma_total_matches,
    released_amount_of, released_unit, seq_sum,
};
use crate::types::{
    holds_address, option_holds, Address, ContractStatus, EscrowContractData, Milestone,
    ReleaseAuthorization, Refused, Rejection, Release, ReputationIssue, ReputationRecord, MilestoneSchedule,
    ScheduleUpdate, TimeoutCheck, NewContract, EscrowError,
};
use crate::schedule::{
    due_dates_increasing, due_of, each_schedule_valid, lemma_sequence_accepted, sequence_result,
    single_schedule_result, store_schedule, validate_schedule_sequence, validate_single_schedule,
};

verus! {

/// The contract.
pub struct Escrow;

/// A milestone with a deadline is expired once ledger time is strictly past
/// the deadline; at the deadline itself it is still live.
pub open spec fn is_expired(m: Milestone, now: u64) -> bool {
    match m.deadline_at {
        Some(d) => now > d,
        None => false,
    }
}

/// Who may approve and release a milestone under the contract's policy.
pub open spec fn release_actor_allowed(c: EscrowContractData, caller: Seq<u8>) -> bool {
    match c.release_auth {
        ReleaseAuthorization::ClientOnly => caller == c.client@,
        ReleaseAuthorization::ArbiterOnly => holds_address(c.arbiter, caller),
        ReleaseAuthorization::ClientAndArbiter => caller == c.client@ || holds_address(c.arbiter, caller),
        ReleaseAuthorization::MultiSig => caller == c.client@ || holds_address(c.arbiter, caller),
    }
}

/// Whose approval a milestone needs before it can be released.
pub open spec fn release_approved(c: EscrowContractData, m: Milestone) -> bool {
    match c.release_auth {
        ReleaseAuthorization::ClientOnly => holds_address(m.approved_by, c.client@),
        ReleaseAuthorization::MultiSig => holds_address(m.approved_by, c.client@),
        ReleaseAuthorization::ArbiterOnly => match c.arbiter {
            Some(a) => holds_address(m.approved_by, a@),
            None => false,
        },
        ReleaseAuthorization::ClientAndArbiter => match m.approved_by {
            Some(x) => x@ == c.client@ || holds_address(c.arbiter, x@),
            None => false,
        },
    }
}

/// Who may resolve a dispute: the arbiter if there is one, else the client.
pub open spec fn dispute_resolver(c: EscrowContractData, caller: Seq<u8>) -> bool {
    match c.arbiter {
        Some(a) => caller == a@,
        None => caller == c.client@,
    }
}

/// The moves of the status machine: Created to Funded, Funded to Completed
/// or Disputed, Disputed back to Funded or on to Completed; Completed is final.
pub open spec fn status_step(from: ContractStatus, to: ContractStatus) -> bool {
    from == to || match (from, to) {
        (ContractStatus::Created, ContractStatus::Funded) => true,
        (ContractStatus::Funded, ContractStatus::Completed) => true,
        (ContractStatus::Funded, ContractStatus::Disputed) => true,
        (ContractStatus::Disputed, ContractStatus::Funded) => true,
        (ContractStatus::Disputed, ContractStatus::Completed) => true,
        _ => false,
    }
}

/// A step of a contract's status that hands its freelancer `credited`
/// pending reputation credits: a move of the status machine, crediting
/// exactly when it completes the contract.
pub open spec fn credit_step(from: ContractStatus, to: ContractStatus, credited: bool) -> bool {
    &&& status_step(from, to)
    &&& credited <==> (from != ContractStatus::Completed && to == ContractStatus::Completed)
}

pub open spec fn load_result(stored: Option<EscrowContractData>) -> Result<EscrowContractData, Rejection> {
    match stored {
        Some(c) => Ok(c),
        None => Err(Rejection::ContractNotFound),
    }
}

/// The first check that rejects a deposit, if any.
pub open spec fn deposit_rejection(stored: Option<EscrowContractData>, caller: Seq<u8>, amount: i128) -> Option<Rejection> {
    if amount <= 0 {
        Some(Rejection::NonPositiveDeposit)
    } else {
        match stored {
            None => Some(Rejection::ContractNotFound),
            Some(c) => if caller != c.client@ {
                Some(Rejection::NotClient)
            } else if c.status != ContractStatus::Created {
                Some(Rejection::NotCreated)
            } else if c.funded_amount + amount > i128::MAX {
                Some(Rejection::ArithmeticOverflow)
            } else if c.funded_amount + amount > c.total_amount {
                Some(Rejection::DepositExceedsTotal)
            } else {
                None
            },
        }
    }
}

/// The contract after a deposit of `amount`: funded once the deposits reach
/// the total.
pub open spec fn deposited(c: EscrowContractData, amount: i128) -> EscrowContractData {
    let funded = c.funded_amount + amount;
    EscrowContractData {
        funded_amount: funded as i128,
        status: if funded == c.total_amount {
            ContractStatus::Funded
        } else {
            c.status
        },
        ..c
    }
}


/// The contract moved to `Disputed`.
pub open spec fn disputed(c: EscrowContractData) -> EscrowContractData {
    EscrowContractData { status: ContractStatus::Disputed, ..c }
}

/// What a refused approval or release writes: the contract moved to
/// `Disputed` when the milestone was past its deadline, else nothing.
pub open spec fn refusal_write(stored: Option<EscrowContractData>, reason: Rejection) -> Option<EscrowContractData> {
    if reason == Rejection::MilestoneExpired {
        Some(disputed(stored.unwrap()))
    } else {
        None
    }
}

/// The first check that rejects an approval, if any.
pub open spec fn approve_rejection(stored: Option<EscrowContractData>, caller: Seq<u8>, milestone_id: u32, now: u64) -> Option<Rejection> {
    match stored {
        None => Some(Rejection::ContractNotFound),
        Some(c) => if c.status != ContractStatus::Funded {
            Some(Rejection::NotFundedForApproval)
        } else if milestone_id >= c.milestones@.len() {
            Some(Rejection::InvalidMilestoneId)
        } else if !release_actor_allowed(c, caller) {
            Some(Rejection::CallerNotAuthorized)
        } else if c.milestones@[milestone_id as int].released {
            Some(Rejection::MilestoneAlreadyReleased)
        } else if holds_address(c.milestones@[milestone_id as int].approved_by, caller) {
            Some(Rejection::AlreadyApprovedByCaller)
        } else if is_expired(c.milestones@[milestone_id as int], now) {
            Some(Rejection::MilestoneExpired)
        } else {
            None
        },
    }
}

/// `c` is `old` with milestone `i` replaced by `m` and nothing else changed.
pub open spec fn milestone_replaced(old: EscrowContractData, c: EscrowContractData, i: int, m: Milestone) -> bool {
    &&& c.milestones@ == old.milestones@.update(i, m)
    &&& c == EscrowContractData { milestones: c.milestones, ..old }
}


/// Milestone `i` of `c`, marked released.
pub open spec fn released_milestone(c: EscrowContractData, i: int) -> Milestone {
    Milestone { released: true, ..c.milestones@[i] }
}

/// The first check that rejects a release, if any; `pending` is the
/// freelancer's current count of pending reputation credits.
pub open spec fn release_rejection(
    stored: Option<EscrowContractData>,
    caller: Seq<u8>,
    milestone_id: u32,
    now: u64,
    pending: u32,
) -> Option<Rejection> {
    match stored {
        None => Some(Rejection::ContractNotFound),
        Some(c) => {
            let i = milestone_id as int;
            let m = c.milestones@[i];
            if c.status != ContractStatus::Funded {
                Some(Rejection::NotFundedForRelease)
            } else if milestone_id >= c.milestones@.len() {
                Some(Rejection::InvalidMilestoneId)
            } else if !release_actor_allowed(c, caller) {
                Some(Rejection::CallerNotAuthorized)
            } else if m.released {
                Some(Rejection::MilestoneAlreadyReleased)
            } else if is_expired(m, now) {
                Some(Rejection::MilestoneExpired)
            } else if !release_approved(c, m) {
                Some(Rejection::InsufficientApprovals)
            } else if !(i128::MIN <= c.funded_amount - c.released_amount <= i128::MAX) {
                Some(Rejection::ArithmeticOverflow)
            } else if c.funded_amount - c.released_amount < m.amount {
                Some(Rejection::InsufficientEscrowBalance)
            } else if !(i128::MIN <= c.released_amount + m.amount <= i128::MAX) {
                Some(Rejection::ArithmeticOverflow)
            } else if c.released_milestones + 1 > u32::MAX {
                Some(Rejection::ArithmeticOverflow)
            } else if all_released(c.milestones@.update(i, released_milestone(c, i))) && pending + 1 > u32::MAX {
                Some(Rejection::ArithmeticOverflow)
            } else {
                None
            }
        },
    }
}

/// `r` is what releasing milestone `i` of `old` writes: the milestone marked
/// released, its amount added to the released total, one more released
/// milestone; and when that was the last one, the contract `Completed` and
/// one more pending reputation credit for the freelancer.
pub open spec fn released_outcome(old: EscrowContractData, i: int, pending: u32, r: Release) -> bool {
    let ms = old.milestones@.update(i, released_milestone(old, i));
    let done = all_released(ms);
    &&& r.contract.milestones@ == ms
    &&& r.contract == EscrowContractData {
        milestones: r.contract.milestones,
        released_amount: (old.released_amount + old.milestones@[i].amount) as i128,
        released_milestones: (old.released_milestones + 1) as u32,
        status: if done {
            ContractStatus::Completed
        } else {
            old.status
        },
        ..old
    }
    &&& r.pending_credits == if done {
        Some((pending + 1) as u32)
    } else {
        None::<u32>
    }
}


/// Some unreleased milestone of `ms` is expired at `now`.
pub open spec fn some_unreleased_expired(ms: Seq<Milestone>, now: u64) -> bool {
    exists|i: int| 0 <= i < ms.len() && !(#[trigger] ms[i]).released && is_expired(ms[i], now)
}

/// The first check that rejects resolving a dispute, if any.
pub open spec fn resolve_rejection(stored: Option<EscrowContractData>, caller: Seq<u8>, now: u64) -> Option<Rejection> {
    match stored {
        None => Some(Rejection::ContractNotFound),
        Some(c) => if c.status != ContractStatus::Disputed {
            Some(Rejection::NotDisputed)
        } else if !dispute_resolver(c, caller) {
            Some(Rejection::NotDisputeResolver)
        } else if some_unreleased_expired(c.milestones@, now) {
            Some(Rejection::DeadlinesStillExpired)
        } else {
            None
        },
    }
}

/// A resolved dispute returns the contract to `Funded`, or to `Completed`
/// when every milestone is already released.
pub open spec fn resolved(c: EscrowContractData) -> EscrowContractData {
    EscrowContractData {
        status: if all_released(c.milestones@) {
            ContractStatus::Completed
        } else {
            ContractStatus::Funded
        },
        ..c
    }
}

/// The check of milestone `milestone_id` at `now`: whether it is unreleased
/// and expired, and the contract to write back when that moves a `Funded`
/// contract to `Disputed`.
pub open spec fn timeout_outcome(c: EscrowContractData, milestone_id: u32, now: u64, t: TimeoutCheck) -> bool {
    let m = c.milestones@[milestone_id as int];
    let expired = !m.released && is_expired(m, now);
    &&& t.expired == expired
    &&& t.updated == if expired && c.status == ContractStatus::Funded {
        Some(EscrowContractData { status: ContractStatus::Disputed, ..c })
    } else {
        None::<EscrowContractData>
    }
}

/// The first check that rejects setting a schedule, if any; `previous` and
/// `next` are the schedules stored for the neighbouring milestones.
pub open spec fn set_schedule_rejection(
    stored: Option<EscrowContractData>,
    milestone_idx: u32,
    schedule: MilestoneSchedule,
    now: u64,
    previous: Option<MilestoneSchedule>,
    next: Option<MilestoneSchedule>,
) -> Option<Rejection> {
    match stored {
        None => Some(Rejection::ContractNotFound),
        Some(c) => if milestone_idx >= c.milestones@.len() {
            Some(Rejection::MilestoneIndexOutOfRange)
        } else if c.milestones@[milestone_idx as int].released {
            Some(Rejection::ScheduleImmutable)
        } else if single_schedule_result(schedule, now) is Err {
            Some(Rejection::InvalidScheduleMetadata)
        } else if milestone_idx > 0 && match (due_of(previous), schedule.due_date) {
            (Some(p), Some(d)) => d <= p,
            _ => false,
        } {
            Some(Rejection::DueDatesNotIncreasing)
        } else if milestone_idx + 1 < c.milestones@.len() && match (schedule.due_date, due_of(next)) {
            (Some(d), Some(n)) => d >= n,
            _ => false,
        } {
            Some(Rejection::DueDatesNotIncreasing)
        } else {
            None
        },
    }
}

/// The first check that rejects issuing reputation, if any; `record` is the
/// freelancer's stored reputation.
pub open spec fn issue_rejection(stored: Option<EscrowContractData>, rating: i128, record: Option<ReputationRecord>) -> Option<Rejection> {
    let base = base_record(record);
    match stored {
        None => Some(Rejection::ContractNotFound),
        Some(c) => if c.status != ContractStatus::Completed {
            Some(Rejection::NotCompleted)
        } else if c.reputation_issued {
            Some(Rejection::ReputationAlreadyIssued)
        } else if !(1 <= rating <= 5) {
            Some(Rejection::RatingOutOfRange)
        } else if base.completed_contracts + 1 > u32::MAX {
            Some(Rejection::ArithmeticOverflow)
        } else if base.total_rating + rating > i128::MAX {
            Some(Rejection::ArithmeticOverflow)
        } else {
            None
        },
    }
}

/// The stored reputation, or an empty record when none is stored.
pub open spec fn base_record(record: Option<ReputationRecord>) -> ReputationRecord {
    match record {
        Some(r) => r,
        None => ReputationRecord { completed_contracts: 0, total_rating: 0, last_rating: 0 },
    }
}

/// The reputation after one more completed contract rated `rating`.
pub open spec fn rated(record: Option<ReputationRecord>, rating: i128) -> ReputationRecord {
    let base = base_record(record);
    ReputationRecord {
        completed_contracts: (base.completed_contracts + 1) as u32,
        total_rating: (base.total_rating + rating) as i128,
        last_rating: rating,
    }
}


/// The id a new contract gets from the stored counter.
pub open spec fn next_id(stored: Option<u32>) -> u32 {
    match stored {
        Some(n) => n,
        None => 1u32,
    }
}

/// The first check that rejects creating a contract, if any.
pub open spec fn create_rejection(
    stored_next_id: Option<u32>,
    now: u64,
    client: Seq<u8>,
    freelancer: Seq<u8>,
    amounts: Seq<i128>,
    schedules: Seq<Option<MilestoneSchedule>>,
) -> Option<Rejection> {
    if amounts.len() == 0 {
        Some(Rejection::EmptyMilestones)
    } else if client == freelancer {
        Some(Rejection::ClientIsFreelancer)
    } else if schedules.len() > 0 && schedules.len() != amounts.len() {
        Some(Rejection::ScheduleLengthMismatch)
    } else if schedules.len() > 0 && sequence_result(schedules, now) == Err::<(), EscrowError>(
        EscrowError::ScheduleDatesNotMonotonic,
    ) {
        Some(Rejection::DueDatesNotIncreasing)
    } else if schedules.len() > 0 && sequence_result(schedules, now) is Err {
        Some(Rejection::InvalidScheduleMetadata)
    } else if amounts_outcome(amounts) is Err {
        Some(amounts_outcome(amounts)->Err_0)
    } else if next_id(stored_next_id) == u32::MAX {
        Some(Rejection::ArithmeticOverflow)
    } else {
        None
    }
}

/// The deadline of milestone `i` of a new contract: the due date of its
/// schedule, when schedules are given.
pub open spec fn deadline_for(schedules: Seq<Option<MilestoneSchedule>>, i: int) -> Option<u64> {
    if schedules.len() == 0 {
        None
    } else {
        due_of(schedules[i])
    }
}

/// A fresh milestone: unreleased and unapproved.
pub open spec fn new_milestone(amount: i128, deadline_at: Option<u64>) -> Milestone {
    Milestone { amount, released: false, approved_by: None, approval_timestamp: None, deadline_at }
}

/// An optional schedule as `create_contract` stores it.
pub open spec fn stamped(e: Option<MilestoneSchedule>, now: u64) -> Option<MilestoneSchedule> {
    match e {
        Some(s) => Some(MilestoneSchedule { updated_at: now, ..s }),
        None => None,
    }
}

/// The deadlines that the milestones carry are strictly increasing.
pub open spec fn deadlines_increasing(ms: Seq<Milestone>) -> bool {
    forall|i: int, j: int|
        0 <= i < j < ms.len() && (#[trigger] ms[i]).deadline_at is Some && (#[trigger] ms[j]).deadline_at is Some
            ==> ms[i].deadline_at.unwrap() < ms[j].deadline_at.unwrap()
}

/// Every deadline that the milestones carry lies strictly after `now`.
pub open spec fn deadlines_after(ms: Seq<Milestone>, now: u64) -> bool {
    forall|i: int| 0 <= i < ms.len() && (#[trigger] ms[i]).deadline_at is Some ==> ms[i].deadline_at.unwrap() > now
}


/// A contract as `create_contract` builds it satisfies the invariant, and
/// its deadlines lie in the future and increase.
proof fn lemma_new_contract_wf(c: EscrowContractData, a: Seq<i128>, sch: Seq<Option<MilestoneSchedule>>, now: u64)
    requires
        c.milestones@.len() == a.len(),
        0 < a.len() <= u32::MAX,
        sch.len() == 0 || sch.len() == a.len(),
        sch.len() > 0 ==> (each_schedule_valid(sch, now) && due_dates_increasing(sch)),
        forall|j: int|
            0 <= j < a.len() ==> #[trigger] c.milestones@[j] == new_milestone(a[j], deadline_for(sch, j)),
        forall|i: int| 0 <= i < a.len() ==> #[trigger] a[i] > 0,
        seq_sum(a) <= i128::MAX,
        c.total_amount == seq_sum(a),
        c.funded_amount == 0,
        c.released_amount == 0,
        c.released_milestones == 0,
        c.status == ContractStatus::Created,
        !c.reputation_issued,
        c.client@ != c.freelancer@,
    ensures
        contract_wf(c),
        deadlines_increasing(c.milestones@),
        deadlines_after(c.milestones@, now),
{
    let ms = c.milestones@;
    assert forall|i: int| 0 <= i < ms.len() implies (#[trigger] ms[i]).amount == a[i] by {}
    lemma_total_matches(ms, a);
    assert forall|i: int| 0 <= i < ms.len() implies (released_amount_of())(#[trigger] ms[i]) == 0 by {}
    assert forall|i: int| 0 <= i < ms.len() implies (released_unit())(#[trigger] ms[i]) == 0 by {}
    lemma_sum_by_zero(ms, released_amount_of());
    lemma_sum_by_zero(ms, released_unit());
    assert forall|i: int| 0 <= i < ms.len() implies (amount_of())(#[trigger] ms[i]) > 0 by {
        assert(a[i] > 0);
    }
    lemma_sum_by_positive(ms, amount_of());
    assert(!ms[0].released);
    assert forall|i: int| 0 <= i < ms.len() implies #[trigger] ms[i].amount > 0 by {
        assert(a[i] > 0);
    }
    assert forall|i: int, j: int|
        0 <= i < j < ms.len() && (#[trigger] ms[i]).deadline_at is Some && (#[trigger] ms[j]).deadline_at is Some
            implies ms[i].deadline_at.unwrap() < ms[j].deadline_at.unwrap() by {
        assert(due_of(sch[i]) is Some && due_of(sch[j]) is Some);
    }
    assert forall|i: int| 0 <= i < ms.len() && (#[trigger] ms[i]).deadline_at is Some implies ms[i].deadline_at.unwrap()
        > now by {
        assert(sch[i] is Some);
    }
}

impl Escrow {
    /// The id the next contract gets: the stored counter, 1 when none is stored.
    pub fn next_contract_id(stored: Option<u32>) -> (id: u32)
        ensures
            id == match stored {
                Some(n) => n,
                None => 1u32,
            },
    {
        match stored {
            Some(n) => n,
            None => 1,
        }
    }

    /// A stored contract, or the rejection for a missing one.
    pub fn load_contract(stored: Option<EscrowContractData>) -> (r: Result<EscrowContractData, Rejection>)
        ensures
            r == load_result(stored),
    {
        match stored {
            Some(c) => Ok(c),
            None => Err(Rejection::ContractNotFound),
        }
    }

    pub fn get_contract(stored: Option<EscrowContractData>) -> (r: Result<EscrowContractData, Rejection>)
        ensures
            r == load_result(stored),
    {
        Self::load_contract(stored)
    }

    /// The freelancer's pending reputation credits: 0 when none are stored.
    pub fn get_pending_reputation_credits(stored: Option<u32>) -> (n: u32)
        ensures
            n == match stored {
                Some(k) => k,
                None => 0u32,
            },
    {
        match stored {
            Some(k) => k,
            None => 0,
        }
    }

    /// The client pays `amount` into the escrow of a contract in `Created`
    /// status; the deposits may not exceed the milestones' total, and the
    /// contract becomes `Funded` when they reach it.
    pub fn deposit_funds(stored: Option<EscrowContractData>, caller: &Address, amount: i128) -> (r: Result<
        EscrowContractData,
        Rejection,
    >)
        ensures
            match r {
                Ok(c) => deposit_rejection(stored, caller@, amount) is None && c == deposited(
                    stored.unwrap(),
                    amount,
                ),
                Err(e) => deposit_rejection(stored, caller@, amount) == Some(e),
            },
            r matches Ok(c) ==> status_step(stored.unwrap().status, c.status),
            r matches Ok(c) ==> credit_step(stored.unwrap().status, c.status, false),
            r matches Ok(c) ==> (contract_wf(stored.unwrap()) ==> contract_wf(c)),
    {
        if amount <= 0 {
            return Err(Rejection::NonPositiveDeposit);
        }
        let mut contract = match Self::load_contract(stored) {
            Ok(c) => c,
            Err(e) => return Err(e),
        };
        if !caller.same_as(&contract.client) {
            return Err(Rejection::NotClient);
        }
        if contract.status != ContractStatus::Created {
            return Err(Rejection::NotCreated);
        }
        let funded = match contract.funded_amount.checked_add(amount) {
            Some(f) => f,
            None => return Err(Rejection::ArithmeticOverflow),
        };
        if funded > contract.total_amount {
            return Err(Rejection::DepositExceedsTotal);
        }
        contract.funded_amount = funded;
        if contract.funded_amount == contract.total_amount {
            contract.status = ContractStatus::Funded;
        }
        Ok(contract)
    }

    /// Whether `caller` may approve and release milestones of `contract`.
    pub fn ensure_release_actor(contract: &EscrowContractData, caller: &Address) -> (r: Result<(), Rejection>)
        ensures
            r is Ok <==> release_actor_allowed(*contract, caller@),
            r is Err ==> r == Err::<(), Rejection>(Rejection::CallerNotAuthorized),
    {
        let authorized = match contract.release_auth {
            ReleaseAuthorization::ClientOnly => caller.same_as(&contract.client),
            ReleaseAuthorization::ArbiterOnly => option_holds(&contract.arbiter, caller),
            ReleaseAuthorization::ClientAndArbiter | ReleaseAuthorization::MultiSig => {
                caller.same_as(&contract.client) || option_holds(&contract.arbiter, caller)
            },
        };
        if !authorized {
            return Err(Rejection::CallerNotAuthorized);
        }
        Ok(())
    }

    /// Whether `milestone` carries the approval that the contract's policy
    /// asks for before a release.
    pub fn ensure_release_approval(contract: &EscrowContractData, milestone: &Milestone) -> (r: Result<(), Rejection>)
        ensures
            r is Ok <==> release_approved(*contract, *milestone),
            r is Err ==> r == Err::<(), Rejection>(Rejection::InsufficientApprovals),
    {
        let has_approval = match contract.release_auth {
            ReleaseAuthorization::ClientOnly | ReleaseAuthorization::MultiSig => option_holds(
                &milestone.approved_by,
                &contract.client,
            ),
            ReleaseAuthorization::ArbiterOnly => match &contract.arbiter {
                Some(arbiter) => option_holds(&milestone.approved_by, arbiter),
                None => false,
            },
            ReleaseAuthorization::ClientAndArbiter => match &milestone.approved_by {
                Some(addr) => addr.same_as(&contract.client) || option_holds(&contract.arbiter, addr),
                None => false,
            },
        };
        if !has_approval {
            return Err(Rejection::InsufficientApprovals);
        }
        Ok(())
    }

    /// Whether ledger time `now` is strictly past the milestone's deadline.
    pub fn milestone_expired(milestone: &Milestone, now: u64) -> (r: bool)
        ensures
            r == is_expired(*milestone, now),
    {
        match milestone.deadline_at {
            Some(deadline_at) => now > deadline_at,
            None => false,
        }
    }

    /// Rejects work on milestone `milestone_id` once ledger time is past its
    /// deadline; a `Funded` contract then moves to `Disputed`.
    pub fn ensure_milestone_not_expired(contract: &mut EscrowContractData, milestone_id: u32, now: u64) -> (r:
        Result<(), Rejection>)
        requires
            milestone_id < old(contract).milestones@.len(),
        ensures
            r is Ok <==> !is_expired(old(contract).milestones@[milestone_id as int], now),
            r is Ok ==> *final(contract) == *old(contract),
            r is Err ==> r == Err::<(), Rejection>(Rejection::MilestoneExpired) && *final(contract) == if old(
                contract,
            ).status == ContractStatus::Funded {
                disputed(*old(contract))
            } else {
                *old(contract)
            },
    {
        if Self::milestone_expired(&contract.milestones[milestone_id as usize], now) {
            if contract.status == ContractStatus::Funded {
                contract.status = ContractStatus::Disputed;
            }
            return Err(Rejection::MilestoneExpired);
        }
        Ok(())
    }

    pub fn all_milestones_released(milestones: &Vec<Milestone>) -> (r: bool)
        ensures
            r == all_released(milestones@),
    {
        let mut idx: usize = 0;
        while idx < milestones.len()
            invariant
                idx <= milestones@.len(),
                forall|j: int| 0 <= j < idx ==> #[trigger] milestones@[j].released,
            decreases milestones@.len() - idx,
        {
            if !milestones[idx].released {
                return false;
            }
            idx += 1;
        }
        true
    }

    /// `caller`, who may act under the release policy, records its approval
    /// of an unreleased, unexpired milestone of a `Funded` contract, with the
    /// ledger time; one address cannot approve the same milestone twice in a
    /// row.
    pub fn approve_milestone_release(
        stored: Option<EscrowContractData>,
        caller: Address,
        milestone_id: u32,
        now: u64,
    ) -> (r: Result<EscrowContractData, Refused>)
        ensures
            match r {
                Ok(c) => approve_rejection(stored, caller@, milestone_id, now) is None && milestone_replaced(
                    stored.unwrap(),
                    c,
                    milestone_id as int,
                    Milestone {
                        approved_by: Some(caller),
                        approval_timestamp: Some(now),
                        ..stored.unwrap().milestones@[milestone_id as int]
                    },
                ),
                Err(f) => approve_rejection(stored, caller@, milestone_id, now) == Some(f.reason) && f.disputed
                    == refusal_write(stored, f.reason),
            },
            r matches Err(f) ==> (f.disputed matches Some(c) ==> credit_step(stored.unwrap().status, c.status, false)),
            r matches Err(f) ==> (f.disputed matches Some(c) ==> (contract_wf(stored.unwrap()) ==> contract_wf(c))),
            r matches Ok(c) ==> status_step(stored.unwrap().status, c.status),
            r matches Ok(c) ==> credit_step(stored.unwrap().status, c.status, false),
            r matches Ok(c) ==> (contract_wf(stored.unwrap()) ==> contract_wf(c)),
    {
        let mut contract = match Self::load_contract(stored) {
            Ok(c) => c,
            Err(e) => return Err(Refused::only(e)),
        };
        if contract.status != ContractStatus::Funded {
            return Err(Refused::only(Rejection::NotFundedForApproval));
        }
        if milestone_id as usize >= contract.milestones.len() {
            return Err(Refused::only(Rejection::InvalidMilestoneId));
        }
        let i = milestone_id as usize;
        if let Err(e) = Self::ensure_release_actor(&contract, &caller) {
            return Err(Refused::only(e));
        }
        if contract.milestones[i].released {
            return Err(Refused::only(Rejection::MilestoneAlreadyReleased));
        }
        if option_holds(&contract.milestones[i].approved_by, &caller) {
            return Err(Refused::only(Rejection::AlreadyApprovedByCaller));
        }
        if let Err(e) = Self::ensure_milestone_not_expired(&mut contract, milestone_id, now) {
            return Err(Refused { reason: e, disputed: Some(contract) });
        }
        let ghost old = contract;
        let mut updated = contract.milestones.remove(i);
        updated.approved_by = Some(caller);
        updated.approval_timestamp = Some(now);
        contract.milestones.insert(i, updated);
        proof {
            assert(contract.milestones@ =~= old.milestones@.update(i as int, updated));
            lemma_same_books(old.milestones@, contract.milestones@);
        }
        Ok(contract)
    }

    /// `caller`, who may act under the release policy, releases an approved,
    /// unreleased, unexpired milestone of a `Funded` contract out of the
    /// escrowed balance. Releasing the last milestone completes the contract
    /// and credits the freelancer (whose pending credits are `pending_credits`)
    /// with one more pending reputation credit.
    pub fn release_milestone(
        stored: Option<EscrowContractData>,
        caller: &Address,
        milestone_id: u32,
        now: u64,
        pending_credits: u32,
    ) -> (r: Result<Release, Refused>)
        ensures
            match r {
                Ok(out) => release_rejection(stored, caller@, milestone_id, now, pending_credits) is None
                    && released_outcome(stored.unwrap(), milestone_id as int, pending_credits, out),
                Err(f) => release_rejection(stored, caller@, milestone_id, now, pending_credits) == Some(f.reason)
                    && f.disputed == refusal_write(stored, f.reason),
            },
            r matches Err(f) ==> (f.disputed matches Some(c) ==> credit_step(stored.unwrap().status, c.status, false)),
            r matches Err(f) ==> (f.disputed matches Some(c) ==> (contract_wf(stored.unwrap()) ==> contract_wf(c))),
            r matches Ok(out) ==> credit_step(stored.unwrap().status, out.contract.status, out.pending_credits is Some),
            r matches Ok(out) ==> (contract_wf(stored.unwrap()) ==> contract_wf(out.contract)),
    {
        let mut contract = match Self::load_contract(stored) {
            Ok(c) => c,
            Err(e) => return Err(Refused::only(e)),
        };
        if contract.status != ContractStatus::Funded {
            return Err(Refused::only(Rejection::NotFundedForRelease));
        }
        if milestone_id as usize >= contract.milestones.len() {
            return Err(Refused::only(Rejection::InvalidMilestoneId));
        }
        let i = milestone_id as usize;
        if let Err(e) = Self::ensure_release_actor(&contract, caller) {
            return Err(Refused::only(e));
        }
        if contract.milestones[i].released {
            return Err(Refused::only(Rejection::MilestoneAlreadyReleased));
        }
        if let Err(e) = Self::ensure_milestone_not_expired(&mut contract, milestone_id, now) {
            return Err(Refused { reason: e, disputed: Some(contract) });
        }
        if let Err(e) = Self::ensure_release_approval(&contract, &contract.milestones[i]) {
            return Err(Refused::only(e));
        }
        let amount = contract.milestones[i].amount;
        let balance = match contract.funded_amount.checked_sub(contract.released_amount) {
            Some(b) => b,
            None => return Err(Refused::only(Rejection::ArithmeticOverflow)),
        };
        if balance < amount {
            return Err(Refused::only(Rejection::InsufficientEscrowBalance));
        }
        let released_amount = match contract.released_amount.checked_add(amount) {
            Some(v) => v,
            None => return Err(Refused::only(Rejection::ArithmeticOverflow)),
        };
        let released_milestones = match contract.released_milestones.checked_add(1) {
            Some(v) => v,
            None => return Err(Refused::only(Rejection::ArithmeticOverflow)),
        };
        let ghost old = contract;
        let mut updated = contract.milestones.remove(i);
        updated.released = true;
        contract.milestones.insert(i, updated);
        assert(contract.milestones@ =~= old.milestones@.update(i as int, released_milestone(old, i as int)));
        contract.released_amount = released_amount;
        contract.released_milestones = released_milestones;
        let mut pending = None;
        if Self::all_milestones_released(&contract.milestones) {
            let credits = match Self::add_pending_reputation_credit(pending_credits) {
                Ok(n) => n,
                Err(e) => return Err(Refused::only(e)),
            };
            contract.status = ContractStatus::Completed;
            pending = Some(credits);
        }
        proof {
            lemma_release_books(old.milestones@, i as int);
        }
        Ok(Release { contract, pending_credits: pending })
    }

    /// One more pending reputation credit.
    pub fn add_pending_reputation_credit(current: u32) -> (r: Result<u32, Rejection>)
        ensures
            match r {
                Ok(n) => n == current + 1,
                Err(e) => current == u32::MAX && e == Rejection::ArithmeticOverflow,
            },
    {
        match current.checked_add(1) {
            Some(n) => Ok(n),
            None => Err(Rejection::ArithmeticOverflow),
        }
    }

    /// Resolves a timeout-driven dispute after schedule metadata has been
    /// updated so that no unreleased milestone is still expired.
    ///
    /// Policy:
    /// - if an arbiter exists, only the arbiter can resolve;
    /// - otherwise the client is the resolver of last resort.
    pub fn resolve_dispute(stored: Option<EscrowContractData>, caller: &Address, now: u64) -> (r: Result<
        EscrowContractData,
        Rejection,
    >)
        ensures
            match r {
                Ok(c) => resolve_rejection(stored, caller@, now) is None && c == resolved(stored.unwrap()),
                Err(e) => resolve_rejection(stored, caller@, now) == Some(e),
            },
            r matches Ok(c) ==> status_step(stored.unwrap().status, c.status),
            r matches Ok(c) ==> (contract_wf(stored.unwrap()) ==> credit_step(stored.unwrap().status, c.status, false)),
            r matches Ok(c) ==> (contract_wf(stored.unwrap()) ==> contract_wf(c)),
    {
        let mut contract = match Self::load_contract(stored) {
            Ok(c) => c,
            Err(e) => return Err(e),
        };
        if contract.status != ContractStatus::Disputed {
            return Err(Rejection::NotDisputed);
        }
        let authorized = match &contract.arbiter {
            Some(arbiter) => caller.same_as(arbiter),
            None => caller.same_as(&contract.client),
        };
        if !authorized {
            return Err(Rejection::NotDisputeResolver);
        }
        let mut idx: usize = 0;
        #[verifier::loop_isolation(false)]
        while idx < contract.milestones.len()
            invariant
                idx <= contract.milestones@.len(),
                forall|j: int|
                    0 <= j < idx ==> !(!(#[trigger] contract.milestones@[j]).released && is_expired(
                        contract.milestones@[j],
                        now,
                    )),
            decreases contract.milestones@.len() - idx,
        {
            if !contract.milestones[idx].released && Self::milestone_expired(&contract.milestones[idx], now) {
                assert(!contract.milestones@[idx as int].released);
                return Err(Rejection::DeadlinesStillExpired);
            }
            idx += 1;
        }
        contract.status = if Self::all_milestones_released(&contract.milestones) {
            ContractStatus::Completed
        } else {
            ContractStatus::Funded
        };
        Ok(contract)
    }

    /// Sets (or replaces) the schedule of an unreleased milestone; its due
    /// date becomes the milestone's deadline. The schedule must be valid on
    /// its own and its due date must lie strictly between those of the
    /// neighbouring milestones' stored schedules (`previous`, `next`), where
    /// both are given.
    pub fn set_milestone_schedule(
        stored: Option<EscrowContractData>,
        milestone_idx: u32,
        schedule: MilestoneSchedule,
        now: u64,
        previous: Option<MilestoneSchedule>,
        next: Option<MilestoneSchedule>,
    ) -> (r: Result<ScheduleUpdate, Rejection>)
        ensures
            match r {
                Ok(u) => set_schedule_rejection(stored, milestone_idx, schedule, now, previous, next) is None
                    && milestone_replaced(
                    stored.unwrap(),
                    u.contract,
                    milestone_idx as int,
                    Milestone {
                        deadline_at: schedule.due_date,
                        ..stored.unwrap().milestones@[milestone_idx as int]
                    },
                ) && u.schedule == (MilestoneSchedule { updated_at: now, ..schedule }),
                Err(e) => set_schedule_rejection(stored, milestone_idx, schedule, now, previous, next) == Some(
                    e,
                ),
            },
            r matches Ok(u) ==> credit_step(stored.unwrap().status, u.contract.status, false),
            r matches Ok(u) ==> (contract_wf(stored.unwrap()) ==> contract_wf(u.contract)),
    {
        let mut contract = match Self::load_contract(stored) {
            Ok(c) => c,
            Err(e) => return Err(e),
        };
        if milestone_idx as usize >= contract.milestones.len() {
            return Err(Rejection::MilestoneIndexOutOfRange);
        }
        let i = milestone_idx as usize;
        if contract.milestones[i].released {
            return Err(Rejection::ScheduleImmutable);
        }
        if validate_single_schedule(&schedule, now).is_err() {
            return Err(Rejection::InvalidScheduleMetadata);
        }
        if milestone_idx > 0 {
            if let Some(prev) = &previous {
                if let (Some(previous_due), Some(new_due)) = (prev.due_date, schedule.due_date) {
                    if new_due <= previous_due {
                        return Err(Rejection::DueDatesNotIncreasing);
                    }
                }
            }
        }
        if i + 1 < contract.milestones.len() {
            if let Some(nxt) = &next {
                if let (Some(new_due), Some(next_due)) = (schedule.due_date, nxt.due_date) {
                    if new_due >= next_due {
                        return Err(Rejection::DueDatesNotIncreasing);
                    }
                }
            }
        }
        let ghost old = contract;
        let mut milestone = contract.milestones.remove(i);
        milestone.deadline_at = schedule.due_date;
        contract.milestones.insert(i, milestone);
        proof {
            assert(contract.milestones@ =~= old.milestones@.update(i as int, milestone));
            lemma_same_books(old.milestones@, contract.milestones@);
        }
        let stamped = store_schedule(schedule, now);
        Ok(ScheduleUpdate { contract, schedule: stamped })
    }

    /// Checks milestone `milestone_id` against the ledger time: reports
    /// whether it is unreleased and past its deadline, and if so moves a
    /// `Funded` contract to `Disputed`.
    pub fn evaluate_milestone_timeout(stored: Option<EscrowContractData>, milestone_id: u32, now: u64) -> (r:
        Result<TimeoutCheck, Rejection>)
        ensures
            match r {
                Ok(t) => stored is Some && milestone_id < stored.unwrap().milestones@.len() && timeout_outcome(
                    stored.unwrap(),
                    milestone_id,
                    now,
                    t,
                ),
                Err(e) => match stored {
                    None => e == Rejection::ContractNotFound,
                    Some(c) => milestone_id >= c.milestones@.len() && e == Rejection::InvalidMilestoneId,
                },
            },
            r matches Ok(t) ==> (t.updated matches Some(c) ==> credit_step(stored.unwrap().status, c.status, false)),
            r matches Ok(t) ==> (t.updated matches Some(c) ==> (contract_wf(stored.unwrap()) ==> contract_wf(c))),
    {
        let mut contract = match Self::load_contract(stored) {
            Ok(c) => c,
            Err(e) => return Err(e),
        };
        if milestone_id as usize >= contract.milestones.len() {
            return Err(Rejection::InvalidMilestoneId);
        }
        let i = milestone_id as usize;
        let expired = !contract.milestones[i].released && Self::milestone_expired(&contract.milestones[i], now);
        if expired && contract.status == ContractStatus::Funded {
            proof {
                assert(!contract.milestones@[i as int].released);
            }
            contract.status = ContractStatus::Disputed;
            return Ok(TimeoutCheck { expired, updated: Some(contract) });
        }
        Ok(TimeoutCheck { expired, updated: None })
    }

    /// Rates the freelancer of a `Completed` contract, once per contract, with
    /// a rating from 1 to 5: the freelancer's record counts one more completed
    /// contract, adds the rating to its total and keeps it as the last rating.
    pub fn issue_reputation(stored: Option<EscrowContractData>, rating: i128, record: Option<ReputationRecord>) -> (r:
        Result<ReputationIssue, Rejection>)
        ensures
            match r {
                Ok(out) => issue_rejection(stored, rating, record) is None && out.record == rated(record, rating)
                    && out.contract == (EscrowContractData { reputation_issued: true, ..stored.unwrap() }),
                Err(e) => issue_rejection(stored, rating, record) == Some(e),
            },
            r matches Ok(out) ==> credit_step(stored.unwrap().status, out.contract.status, false),
            r matches Ok(out) ==> (contract_wf(stored.unwrap()) ==> contract_wf(out.contract)),
    {
        let mut contract = match Self::load_contract(stored) {
            Ok(c) => c,
            Err(e) => return Err(e),
        };
        if contract.status != ContractStatus::Completed {
            return Err(Rejection::NotCompleted);
        }
        if contract.reputation_issued {
            return Err(Rejection::ReputationAlreadyIssued);
        }
        if !(1 <= rating && rating <= 5) {
            return Err(Rejection::RatingOutOfRange);
        }
        let base = match record {
            Some(rec) => rec,
            None => ReputationRecord { completed_contracts: 0, total_rating: 0, last_rating: 0 },
        };
        let completed_contracts = match base.completed_contracts.checked_add(1) {
            Some(n) => n,
            None => return Err(Rejection::ArithmeticOverflow),
        };
        let total_rating = match base.total_rating.checked_add(rating) {
            Some(n) => n,
            None => return Err(Rejection::ArithmeticOverflow),
        };
        let updated = ReputationRecord { completed_contracts, total_rating, last_rating: rating };
        contract.reputation_issued = true;
        Ok(ReputationIssue { contract, record: updated })
    }

    /// Opens a contract between `client` and `freelancer` with one milestone
    /// per amount, in `Created` status and unfunded. Optional schedules, one
    /// per milestone when given, are validated (their due dates must lie in
    /// the future and be strictly increasing), give the milestones their
    /// deadlines, and are stored stamped with the ledger time.
    pub fn create_contract(
        stored_next_id: Option<u32>,
        now: u64,
        client: Address,
        freelancer: Address,
        arbiter: Option<Address>,
        milestone_amounts: Vec<i128>,
        release_auth: ReleaseAuthorization,
        schedules: Vec<Option<MilestoneSchedule>>,
    ) -> (r: Result<NewContract, Rejection>)
        requires
            milestone_amounts@.len() <= u32::MAX,
        ensures
            match r {
                Ok(n) => {
                    let ms = n.contract.milestones@;
                    &&& create_rejection(
                        stored_next_id,
                        now,
                        client@,
                        freelancer@,
                        milestone_amounts@,
                        schedules@,
                    ) is None
                    &&& n.contract_id == next_id(stored_next_id)
                    &&& n.next_contract_id == n.contract_id + 1
                    &&& n.contract == EscrowContractData {
                        client,
                        freelancer,
                        arbiter,
                        milestones: n.contract.milestones,
                        total_amount: seq_sum(milestone_amounts@) as i128,
                        funded_amount: 0,
                        released_amount: 0,
                        released_milestones: 0,
                        status: ContractStatus::Created,
                        release_auth,
                        reputation_issued: false,
                        created_at: now,
                    }
                    &&& ms.len() == milestone_amounts@.len()
                    &&& forall|i: int|
                        0 <= i < ms.len() ==> #[trigger] ms[i] == new_milestone(
                            milestone_amounts@[i],
                            deadline_for(schedules@, i),
                        )
                    &&& n.schedules@.len() == schedules@.len()
                    &&& forall|i: int|
                        0 <= i < schedules@.len() ==> #[trigger] n.schedules@[i] == stamped(schedules@[i], now)
                },
                Err(e) => create_rejection(
                    stored_next_id,
                    now,
                    client@,
                    freelancer@,
                    milestone_amounts@,
                    schedules@,
                ) == Some(e),
            },
            r matches Ok(n) ==> contract_wf(n.contract),
            r matches Ok(n) ==> deadlines_increasing(n.contract.milestones@) && deadlines_after(
                n.contract.milestones@,
                now,
            ),
    {
        let ghost a = milestone_amounts@;
        let ghost sch = schedules@;
        if milestone_amounts.len() == 0 {
            return Err(Rejection::EmptyMilestones);
        }
        if client.same_as(&freelancer) {
            return Err(Rejection::ClientIsFreelancer);
        }
        if schedules.len() > 0 {
            if schedules.len() != milestone_amounts.len() {
                return Err(Rejection::ScheduleLengthMismatch);
            }
            match validate_schedule_sequence(&schedules, now) {
                Ok(()) => {},
                Err(EscrowError::ScheduleDatesNotMonotonic) => {
                    return Err(Rejection::DueDatesNotIncreasing);
                },
                Err(_) => {
                    return Err(Rejection::InvalidScheduleMetadata);
                },
            }
        }
        proof {
            lemma_sequence_accepted(sch, now);
        }
        let mut total_amount: i128 = 0;
        let mut milestones: Vec<Milestone> = Vec::new();
        let mut idx: usize = 0;
        assert(a.take(0) =~= Seq::<i128>::empty());
        #[verifier::loop_isolation(false)]
        while idx < milestone_amounts.len()
            invariant
                a == milestone_amounts@,
                sch == schedules@,
                sch.len() == 0 || sch.len() == a.len(),
                idx <= a.len(),
                amounts_outcome(a.take(idx as int)) == Ok::<int, Rejection>(total_amount as int),
                milestones@.len() == idx,
                forall|j: int|
                    0 <= j < idx ==> #[trigger] milestones@[j] == new_milestone(a[j], deadline_for(sch, j)),
            decreases a.len() - idx,
        {
            let amount = milestone_amounts[idx];
            let ghost t = a.take(idx as int + 1);
            assert(t.drop_last() =~= a.take(idx as int));
            if amount <= 0 {
                proof {
                    lemma_amounts_prefix_error(a, idx as int + 1);
                }
                return Err(Rejection::NonPositiveMilestoneAmount);
            }
            let next_total = match total_amount.checked_add(amount) {
                Some(v) => v,
                None => {
                    proof {
                        lemma_amounts_prefix_error(a, idx as int + 1);
                    }
                    return Err(Rejection::ArithmeticOverflow);
                },
            };
            let deadline_at = if schedules.len() == 0 {
                None
            } else {
                match &schedules[idx] {
                    Some(schedule) => schedule.due_date,
                    None => None,
                }
            };
            milestones.push(
                Milestone { amount, released: false, approved_by: None, approval_timestamp: None, deadline_at },
            );
            total_amount = next_total;
            idx += 1;
        }
        assert(a.take(a.len() as int) =~= a);
        proof {
            lemma_amounts_accepted(a);
        }
        let contract_id = Self::next_contract_id(stored_next_id);
        let next_contract_id = match contract_id.checked_add(1) {
            Some(n) => n,
            None => return Err(Rejection::ArithmeticOverflow),
        };
        let contract = EscrowContractData {
            client,
            freelancer,
            arbiter,
            milestones,
            total_amount,
            funded_amount: 0,
            released_amount: 0,
            released_milestones: 0,
            status: ContractStatus::Created,
            release_auth,
            reputation_issued: false,
            created_at: now,
        };
        let mut rest = schedules;
        let mut stored_schedules: Vec<Option<MilestoneSchedule>> = Vec::new();
        while rest.len() > 0
            invariant
                stored_schedules@.len() + rest@.len() == sch.len(),
                rest@ == sch.subrange(stored_schedules@.len() as int, sch.len() as int),
                forall|j: int|
                    0 <= j < stored_schedules@.len() ==> #[trigger] stored_schedules@[j] == stamped(sch[j], now),
            decreases rest@.len(),
        {
            let entry = rest.remove(0);
            let entry_stamped = match entry {
                Some(schedule) => Some(store_schedule(schedule, now)),
                None => None,
            };
            stored_schedules.push(entry_stamped);
        }
        proof {
            lemma_new_contract_wf(contract, a, sch, now);
        }
        Ok(NewContract { contract_id, next_contract_id, contract, schedules: stored_schedules })
    }
}

} // verus!
