//! Properties of the contract that span calls.
use vstd::prelude::*;

use crate::escrow::{
    approve_rejection, is_expired, issue_rejection, milestone_replaced, release_rejection,
    released_outcome, status_step, timeout_outcome, credit_step,
};
use crate::ledger::{all_released, contract_wf, lemma_unreleased_fits};
use crate::types::{
    Address, ContractStatus, EscrowContractData, Milestone, Rejection, Release, ReputationRecord, TimeoutCheck,
};

verus! {

/// An address that has just approved a milestone cannot approve it again:
/// the repeated approval is rejected as already approved by that address,
/// whatever the ledger time.
pub proof fn law_approval_not_repeated(
    c: EscrowContractData,
    approved: EscrowContractData,
    caller: Address,
    milestone_id: u32,
    now: u64,
    later: u64,
)
    requires
        approve_rejection(Some(c), caller@, milestone_id, now) is None,
        milestone_replaced(
            c,
            approved,
            milestone_id as int,
            Milestone {
                approved_by: Some(caller),
                approval_timestamp: Some(now),
                ..c.milestones@[milestone_id as int]
            },
        ),
    ensures
        approve_rejection(Some(approved), caller@, milestone_id, later) == Some(Rejection::AlreadyApprovedByCaller),
{
}

/// A released milestone is never released again: the repeated release is
/// rejected, as the contract is no longer funded once it completed, and
/// otherwise as already released.
pub proof fn law_release_not_repeated(
    c: EscrowContractData,
    out: Release,
    caller: Address,
    milestone_id: u32,
    now: u64,
    pending: u32,
    later: u64,
    later_pending: u32,
)
    requires
        release_rejection(Some(c), caller@, milestone_id, now, pending) is None,
        released_outcome(c, milestone_id as int, pending, out),
    ensures
        release_rejection(Some(out.contract), caller@, milestone_id, later, later_pending) == Some(
            if out.contract.status == ContractStatus::Completed {
                Rejection::NotFundedForRelease
            } else {
                Rejection::MilestoneAlreadyReleased
            },
        ),
{
}

/// Reputation is issued at most once per contract: once issued, a further
/// issue is rejected as already issued.
pub proof fn law_reputation_issued_once(
    c: EscrowContractData,
    rating: i128,
    later_rating: i128,
    record: Option<ReputationRecord>,
    later_record: Option<ReputationRecord>,
)
    requires
        issue_rejection(Some(c), rating, record) is None,
    ensures
        issue_rejection(
            Some(EscrowContractData { reputation_issued: true, ..c }),
            later_rating,
            later_record,
        ) == Some(Rejection::ReputationAlreadyIssued),
{
}

/// The escrow never runs short: in a contract that satisfies the invariant,
/// the balance still held covers every unreleased milestone once funded.
pub proof fn law_balance_covers_unreleased(c: EscrowContractData, i: int)
    requires
        contract_wf(c),
        c.status != ContractStatus::Created,
        0 <= i < c.milestones@.len(),
        !c.milestones@[i].released,
    ensures
        c.funded_amount - c.released_amount >= c.milestones@[i].amount,
{
    lemma_unreleased_fits(c.milestones@, i);
}

/// Deadlines bind at the instant after: at its deadline an unreleased
/// milestone is not expired, so neither approval nor release is refused for
/// that reason; strictly after it, both are refused, the timeout check
/// reports it expired, and a `Funded` contract moves to `Disputed`.
pub proof fn law_deadline_boundary(
    c: EscrowContractData,
    caller: Address,
    milestone_id: u32,
    deadline: u64,
    later: u64,
    pending: u32,
    t: TimeoutCheck,
)
    requires
        milestone_id < c.milestones@.len(),
        !c.milestones@[milestone_id as int].released,
        c.milestones@[milestone_id as int].deadline_at == Some(deadline),
        later > deadline,
        timeout_outcome(c, milestone_id, later, t),
    ensures
        !is_expired(c.milestones@[milestone_id as int], deadline),
        approve_rejection(Some(c), caller@, milestone_id, deadline) != Some(Rejection::MilestoneExpired),
        release_rejection(Some(c), caller@, milestone_id, deadline, pending) != Some(Rejection::MilestoneExpired),
        approve_rejection(Some(c), caller@, milestone_id, later) is Some,
        release_rejection(Some(c), caller@, milestone_id, later, pending) is Some,
        t.expired,
        c.status == ContractStatus::Funded ==> t.updated == Some(
            EscrowContractData { status: ContractStatus::Disputed, ..c },
        ),
{
}


/// A release hands back a pending reputation credit for the freelancer, one
/// more than the count it was given, exactly when it completes the contract;
/// otherwise it hands back none.
pub proof fn law_release_credits_on_completion(
    c: EscrowContractData,
    out: Release,
    caller: Address,
    milestone_id: u32,
    now: u64,
    pending: u32,
)
    requires
        release_rejection(Some(c), caller@, milestone_id, now, pending) is None,
        released_outcome(c, milestone_id as int, pending, out),
    ensures
        c.status == ContractStatus::Funded,
        out.contract.status == ContractStatus::Completed <==> all_released(out.contract.milestones@),
        out.pending_credits == Some((pending + 1) as u32) <==> out.contract.status == ContractStatus::Completed,
        out.pending_credits is None <==> out.contract.status != ContractStatus::Completed,
        out.contract.status == ContractStatus::Completed ==> pending + 1 <= u32::MAX,
{
}

/// A completed contract admits no further release, whoever asks, for any
/// milestone and at any time; so it hands back no further credit.
pub proof fn law_completed_admits_no_release(
    c: EscrowContractData,
    caller: Address,
    milestone_id: u32,
    now: u64,
    pending: u32,
)
    requires
        c.status == ContractStatus::Completed,
    ensures
        release_rejection(Some(c), caller@, milestone_id, now, pending) == Some(Rejection::NotFundedForRelease),
{
}

/// Completed is final: no move of the status machine leaves it. Together
/// with the two laws above, each contract credits its freelancer with at
/// most one pending reputation credit, at the release that completes it.
pub proof fn law_completed_is_final(to: ContractStatus)
    requires
        status_step(ContractStatus::Completed, to),
    ensures
        to == ContractStatus::Completed,
{
}


/// The number of steps of a run that credit the freelancer.
pub open spec fn credits_given(credited: Seq<bool>) -> int
    decreases credited.len(),
{
    if credited.len() == 0 {
        0
    } else {
        credits_given(credited.drop_last()) + if credited.last() {
            1int
        } else {
            0int
        }
    }
}

/// Over any run of successful calls on one contract (each call a
/// `credit_step`, as every entry point ensures for a contract that satisfies
/// the invariant), the freelancer is credited exactly once if the run takes
/// the contract from not completed to `Completed`, and never otherwise; the
/// credit comes at the step that completes it. A run that starts completed
/// stays completed.
pub proof fn law_one_credit_per_contract(statuses: Seq<ContractStatus>, credited: Seq<bool>)
    requires
        statuses.len() == credited.len() + 1,
        forall|i: int| 0 <= i < credited.len() ==> credit_step(#[trigger] statuses[i], statuses[i + 1], credited[i]),
    ensures
        credits_given(credited) == if statuses[0] != ContractStatus::Completed && statuses.last()
            == ContractStatus::Completed {
            1int
        } else {
            0int
        },
        statuses[0] == ContractStatus::Completed ==> forall|i: int|
            0 <= i < statuses.len() ==> #[trigger] statuses[i] == ContractStatus::Completed,
        forall|i: int|
            0 <= i < credited.len() ==> (#[trigger] credited[i] <==> (statuses[i] != ContractStatus::Completed
                && statuses[i + 1] == ContractStatus::Completed)),
    decreases credited.len(),
{
    let n = credited.len() as int;
    if n > 0 {
        let sp = statuses.drop_last();
        let cp = credited.drop_last();
        assert forall|i: int| 0 <= i < cp.len() implies credit_step(#[trigger] sp[i], sp[i + 1], cp[i]) by {
            assert(credit_step(statuses[i], statuses[i + 1], credited[i]));
        }
        law_one_credit_per_contract(sp, cp);
        assert(credit_step(statuses[n - 1], statuses[n], credited[n - 1]));
        assert(sp[0] == statuses[0]);
        assert(sp.last() == statuses[n - 1]);
        if statuses[0] == ContractStatus::Completed {
            assert forall|i: int| 0 <= i < statuses.len() implies #[trigger] statuses[i] == ContractStatus::Completed by {
                if i < n {
                    assert(sp[i] == statuses[i]);
                }
            }
        }
        assert forall|i: int| 0 <= i < credited.len() implies (#[trigger] credited[i] <==> (statuses[i]
            != ContractStatus::Completed && statuses[i + 1] == ContractStatus::Completed)) by {
            assert(credit_step(statuses[i], statuses[i + 1], credited[i]));
        }
    }
}

} // verus!
