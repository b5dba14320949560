use escrow::authorization::EntryPoint;
use escrow::escrow::Escrow;
use escrow::schedule::{store_schedule, validate_schedule_sequence, validate_single_schedule};
use escrow::types::{
    Address, ContractStatus, EscrowContractData, EscrowError, MilestoneSchedule, Rejection, ReleaseAuthorization,
    ReputationRecord,
};

fn addr(s: &str) -> Address {
    Address::new(s.as_bytes().to_vec())
}

fn client() -> Address {
    addr("GCLIENT")
}

fn freelancer() -> Address {
    addr("GFREELANCER")
}

fn arbiter() -> Address {
    addr("GARBITER")
}

fn schedule(due: Option<u64>) -> MilestoneSchedule {
    MilestoneSchedule { due_date: due, title: None, description: None, updated_at: 0 }
}

fn create(amounts: Vec<i128>, auth: ReleaseAuthorization, arb: Option<Address>, schedules: Vec<Option<MilestoneSchedule>>) -> EscrowContractData {
    Escrow::create_contract(None, 1_000, client(), freelancer(), arb, amounts, auth, schedules)
        .expect("contract is created")
        .contract
}

fn funded(amounts: Vec<i128>, auth: ReleaseAuthorization, arb: Option<Address>, schedules: Vec<Option<MilestoneSchedule>>) -> EscrowContractData {
    let total: i128 = amounts.iter().sum();
    let c = create(amounts, auth, arb, schedules);
    Escrow::deposit_funds(Some(c), &client(), total).expect("deposit accepted")
}

#[test]
fn create_contract_opens_unfunded_contract() {
    let out = Escrow::create_contract(
        None,
        1_000,
        client(),
        freelancer(),
        None,
        vec![100, 200],
        ReleaseAuthorization::ClientOnly,
        vec![],
    )
    .unwrap();
    assert_eq!(out.contract_id, 1);
    assert_eq!(out.next_contract_id, 2);
    let c = out.contract;
    assert_eq!(c.total_amount, 300);
    assert_eq!(c.funded_amount, 0);
    assert_eq!(c.released_amount, 0);
    assert_eq!(c.released_milestones, 0);
    assert_eq!(c.status, ContractStatus::Created);
    assert_eq!(c.created_at, 1_000);
    assert!(!c.reputation_issued);
    assert_eq!(c.milestones.len(), 2);
    assert_eq!(c.milestones[1].amount, 200);
    assert!(!c.milestones[0].released);
    assert_eq!(c.milestones[0].deadline_at, None);
    assert!(out.schedules.is_empty());
}

#[test]
fn create_contract_uses_stored_counter() {
    let out = Escrow::create_contract(
        Some(7),
        5,
        client(),
        freelancer(),
        None,
        vec![1],
        ReleaseAuthorization::ClientOnly,
        vec![],
    )
    .unwrap();
    assert_eq!(out.contract_id, 7);
    assert_eq!(out.next_contract_id, 8);
}

#[test]
fn create_contract_counter_overflow_rejected() {
    let r = Escrow::create_contract(
        Some(u32::MAX),
        5,
        client(),
        freelancer(),
        None,
        vec![1],
        ReleaseAuthorization::ClientOnly,
        vec![],
    );
    assert_eq!(r.err(), Some(Rejection::ArithmeticOverflow));
}

#[test]
fn create_contract_schedules_set_deadlines_and_are_stamped() {
    let mut s1 = schedule(Some(2_000));
    s1.title = Some(b"design".to_vec());
    let out = Escrow::create_contract(
        None,
        1_000,
        client(),
        freelancer(),
        None,
        vec![10, 20, 30],
        ReleaseAuthorization::ClientOnly,
        vec![Some(s1), None, Some(schedule(Some(3_000)))],
    )
    .unwrap();
    let ms = &out.contract.milestones;
    assert_eq!(ms[0].deadline_at, Some(2_000));
    assert_eq!(ms[1].deadline_at, None);
    assert_eq!(ms[2].deadline_at, Some(3_000));
    assert_eq!(out.schedules.len(), 3);
    let stored = out.schedules[0].as_ref().unwrap();
    assert_eq!(stored.updated_at, 1_000);
    assert_eq!(stored.title, Some(b"design".to_vec()));
    assert!(out.schedules[1].is_none());
    assert_eq!(out.schedules[2].as_ref().unwrap().due_date, Some(3_000));
}

#[test]
fn create_contract_rejections() {
    let mk = |amounts: Vec<i128>, f: Address, schedules: Vec<Option<MilestoneSchedule>>| {
        Escrow::create_contract(
            None,
            1_000,
            client(),
            f,
            None,
            amounts,
            ReleaseAuthorization::ClientOnly,
            schedules,
        )
        .err()
    };
    assert_eq!(mk(vec![], freelancer(), vec![]), Some(Rejection::EmptyMilestones));
    assert_eq!(mk(vec![1], client(), vec![]), Some(Rejection::ClientIsFreelancer));
    assert_eq!(mk(vec![1, 2], freelancer(), vec![None]), Some(Rejection::ScheduleLengthMismatch));
    assert_eq!(
        mk(vec![1, 2], freelancer(), vec![Some(schedule(Some(3_000))), Some(schedule(Some(3_000)))]),
        Some(Rejection::DueDatesNotIncreasing)
    );
    assert_eq!(
        mk(vec![1, 2], freelancer(), vec![Some(schedule(Some(1_000))), None]),
        Some(Rejection::InvalidScheduleMetadata)
    );
    assert_eq!(mk(vec![5, 0, 3], freelancer(), vec![]), Some(Rejection::NonPositiveMilestoneAmount));
    assert_eq!(mk(vec![5, -3], freelancer(), vec![]), Some(Rejection::NonPositiveMilestoneAmount));
    assert_eq!(mk(vec![i128::MAX, 1], freelancer(), vec![]), Some(Rejection::ArithmeticOverflow));
    assert_eq!(mk(vec![i128::MAX, 0], freelancer(), vec![]), Some(Rejection::NonPositiveMilestoneAmount));
    assert_eq!(mk(vec![i128::MAX], freelancer(), vec![]).is_none(), true);
}

#[test]
fn schedule_validation_limits() {
    let mut s = schedule(Some(11));
    s.title = Some(vec![b'a'; 128]);
    s.description = Some(vec![b'b'; 512]);
    assert_eq!(validate_single_schedule(&s, 10), Ok(()));
    s.title = Some(vec![b'a'; 129]);
    assert_eq!(validate_single_schedule(&s, 10), Err(EscrowError::ScheduleStringTooLong));
    s.title = None;
    s.description = Some(vec![b'b'; 513]);
    assert_eq!(validate_single_schedule(&s, 10), Err(EscrowError::ScheduleStringTooLong));
    s.description = None;
    assert_eq!(validate_single_schedule(&s, 11), Err(EscrowError::ScheduleDueDateInPast));
    assert_eq!(validate_single_schedule(&schedule(None), u64::MAX), Ok(()));
}

#[test]
fn schedule_sequence_first_failure_decides() {
    let seq = vec![Some(schedule(Some(20))), None, Some(schedule(Some(30))), Some(schedule(None))];
    assert_eq!(validate_schedule_sequence(&seq, 10), Ok(()));
    let seq = vec![Some(schedule(Some(30))), Some(schedule(Some(20))), Some(schedule(Some(5)))];
    assert_eq!(validate_schedule_sequence(&seq, 10), Err(EscrowError::ScheduleDatesNotMonotonic));
    let seq = vec![Some(schedule(Some(5))), Some(schedule(Some(2)))];
    assert_eq!(validate_schedule_sequence(&seq, 10), Err(EscrowError::ScheduleDueDateInPast));
    let seq = vec![Some(schedule(Some(30))), None, Some(schedule(Some(30)))];
    assert_eq!(validate_schedule_sequence(&seq, 10), Err(EscrowError::ScheduleDatesNotMonotonic));
}

#[test]
fn store_schedule_stamps_time() {
    let s = store_schedule(schedule(Some(9)), 77);
    assert_eq!(s.updated_at, 77);
    assert_eq!(s.due_date, Some(9));
}

#[test]
fn deposit_funds_until_funded() {
    let c = create(vec![100, 200], ReleaseAuthorization::ClientOnly, None, vec![]);
    let c = Escrow::deposit_funds(Some(c), &client(), 120).unwrap();
    assert_eq!(c.funded_amount, 120);
    assert_eq!(c.status, ContractStatus::Created);
    assert_eq!(
        Escrow::deposit_funds(Some(c.clone()), &client(), 181).err(),
        Some(Rejection::DepositExceedsTotal)
    );
    let c = Escrow::deposit_funds(Some(c), &client(), 180).unwrap();
    assert_eq!(c.funded_amount, 300);
    assert_eq!(c.status, ContractStatus::Funded);
    assert_eq!(Escrow::deposit_funds(Some(c), &client(), 1).err(), Some(Rejection::NotCreated));
}

#[test]
fn deposit_funds_rejections() {
    let c = create(vec![100], ReleaseAuthorization::ClientOnly, None, vec![]);
    assert_eq!(Escrow::deposit_funds(None, &client(), 0).err(), Some(Rejection::NonPositiveDeposit));
    assert_eq!(Escrow::deposit_funds(None, &client(), 10).err(), Some(Rejection::ContractNotFound));
    assert_eq!(Escrow::deposit_funds(Some(c.clone()), &freelancer(), 10).err(), Some(Rejection::NotClient));
    let mut odd = c.clone();
    odd.funded_amount = i128::MAX;
    assert_eq!(Escrow::deposit_funds(Some(odd), &client(), 1).err(), Some(Rejection::ArithmeticOverflow));
}

#[test]
fn approve_and_release_under_client_only() {
    let c = funded(vec![100, 50], ReleaseAuthorization::ClientOnly, None, vec![]);
    assert_eq!(
        Escrow::release_milestone(Some(c.clone()), &client(), 0, 1_000, 0).err().map(|f| f.reason),
        Some(Rejection::InsufficientApprovals)
    );
    assert_eq!(
        Escrow::approve_milestone_release(Some(c.clone()), freelancer(), 0, 1_000).err().map(|f| f.reason),
        Some(Rejection::CallerNotAuthorized)
    );
    let c = Escrow::approve_milestone_release(Some(c), client(), 0, 1_234).unwrap();
    assert_eq!(c.milestones[0].approved_by, Some(client()));
    assert_eq!(c.milestones[0].approval_timestamp, Some(1_234));
    assert_eq!(
        Escrow::approve_milestone_release(Some(c.clone()), client(), 0, 1_300).err().map(|f| f.reason),
        Some(Rejection::AlreadyApprovedByCaller)
    );
    let out = Escrow::release_milestone(Some(c), &client(), 0, 1_300, 0).unwrap();
    assert_eq!(out.pending_credits, None);
    let c = out.contract;
    assert!(c.milestones[0].released);
    assert_eq!(c.released_amount, 100);
    assert_eq!(c.released_milestones, 1);
    assert_eq!(c.status, ContractStatus::Funded);
    assert_eq!(
        Escrow::release_milestone(Some(c.clone()), &client(), 0, 1_300, 0).err().map(|f| f.reason),
        Some(Rejection::MilestoneAlreadyReleased)
    );
    assert_eq!(
        Escrow::approve_milestone_release(Some(c.clone()), client(), 0, 1_300).err().map(|f| f.reason),
        Some(Rejection::MilestoneAlreadyReleased)
    );
    let c = Escrow::approve_milestone_release(Some(c), client(), 1, 1_400).unwrap();
    let out = Escrow::release_milestone(Some(c), &client(), 1, 1_400, 4).unwrap();
    assert_eq!(out.pending_credits, Some(5));
    assert_eq!(out.contract.status, ContractStatus::Completed);
    assert_eq!(out.contract.released_amount, 150);
    assert_eq!(out.contract.released_milestones, 2);
    assert_eq!(
        Escrow::release_milestone(Some(out.contract), &client(), 1, 1_400, 5).err().map(|f| f.reason),
        Some(Rejection::NotFundedForRelease)
    );
}

#[test]
fn release_authorization_policies() {
    // Arbiter only: only the arbiter acts and only its approval counts.
    let c = funded(vec![10], ReleaseAuthorization::ArbiterOnly, Some(arbiter()), vec![]);
    assert_eq!(
        Escrow::approve_milestone_release(Some(c.clone()), client(), 0, 1).err().map(|f| f.reason),
        Some(Rejection::CallerNotAuthorized)
    );
    let c = Escrow::approve_milestone_release(Some(c), arbiter(), 0, 1).unwrap();
    assert!(Escrow::release_milestone(Some(c), &arbiter(), 0, 1, 0).is_ok());

    // Arbiter only without an arbiter: nobody may act.
    let c = funded(vec![10], ReleaseAuthorization::ArbiterOnly, None, vec![]);
    assert_eq!(
        Escrow::approve_milestone_release(Some(c), client(), 0, 1).err().map(|f| f.reason),
        Some(Rejection::CallerNotAuthorized)
    );

    // Client and arbiter: either approval suffices, either may release.
    let c = funded(vec![10], ReleaseAuthorization::ClientAndArbiter, Some(arbiter()), vec![]);
    let c = Escrow::approve_milestone_release(Some(c), arbiter(), 0, 1).unwrap();
    assert!(Escrow::release_milestone(Some(c), &client(), 0, 1, 0).is_ok());

    // Multisig: the arbiter may act, but release needs the client's approval.
    let c = funded(vec![10], ReleaseAuthorization::MultiSig, Some(arbiter()), vec![]);
    let c = Escrow::approve_milestone_release(Some(c), arbiter(), 0, 1).unwrap();
    assert_eq!(
        Escrow::release_milestone(Some(c.clone()), &arbiter(), 0, 1, 0).err().map(|f| f.reason),
        Some(Rejection::InsufficientApprovals)
    );
    let c = Escrow::approve_milestone_release(Some(c), client(), 0, 2).unwrap();
    assert!(Escrow::release_milestone(Some(c), &arbiter(), 0, 2, 0).is_ok());
}

#[test]
fn approve_and_release_rejections() {
    let created = create(vec![10], ReleaseAuthorization::ClientOnly, None, vec![]);
    assert_eq!(
        Escrow::approve_milestone_release(Some(created.clone()), client(), 0, 1).err().map(|f| f.reason),
        Some(Rejection::NotFundedForApproval)
    );
    assert_eq!(
        Escrow::release_milestone(Some(created), &client(), 0, 1, 0).err().map(|f| f.reason),
        Some(Rejection::NotFundedForRelease)
    );
    let c = funded(vec![10], ReleaseAuthorization::ClientOnly, None, vec![]);
    assert_eq!(
        Escrow::approve_milestone_release(Some(c.clone()), client(), 1, 1).err().map(|f| f.reason),
        Some(Rejection::InvalidMilestoneId)
    );
    assert_eq!(Escrow::release_milestone(Some(c.clone()), &client(), 1, 1, 0).err().map(|f| f.reason), Some(Rejection::InvalidMilestoneId));
    assert_eq!(Escrow::approve_milestone_release(None, client(), 0, 1).err().map(|f| f.reason), Some(Rejection::ContractNotFound));
    let c = Escrow::approve_milestone_release(Some(c), client(), 0, 1).unwrap();
    let mut short = c.clone();
    short.funded_amount = 5;
    assert_eq!(
        Escrow::release_milestone(Some(short), &client(), 0, 1, 0).err().map(|f| f.reason),
        Some(Rejection::InsufficientEscrowBalance)
    );
    assert_eq!(
        Escrow::release_milestone(Some(c), &client(), 0, 1, u32::MAX).err().map(|f| f.reason),
        Some(Rejection::ArithmeticOverflow)
    );
}

#[test]
fn deadline_is_inclusive() {
    let c = funded(vec![10, 20], ReleaseAuthorization::ClientOnly, None, vec![Some(schedule(Some(2_000))), None]);
    let approved = Escrow::approve_milestone_release(Some(c.clone()), client(), 0, 2_000);
    assert!(approved.is_ok());
    assert_eq!(
        Escrow::approve_milestone_release(Some(c.clone()), client(), 0, 2_001).err().map(|f| f.reason),
        Some(Rejection::MilestoneExpired)
    );
    let approved = approved.unwrap();
    assert!(Escrow::release_milestone(Some(approved.clone()), &client(), 0, 2_000, 0).is_ok());
    assert_eq!(
        Escrow::release_milestone(Some(approved), &client(), 0, 2_001, 0).err().map(|f| f.reason),
        Some(Rejection::MilestoneExpired)
    );
}

#[test]
fn timeout_moves_funded_contract_to_disputed() {
    let c = funded(vec![10, 20], ReleaseAuthorization::ClientOnly, Some(arbiter()), vec![Some(schedule(Some(2_000))), None]);
    let t = Escrow::evaluate_milestone_timeout(Some(c.clone()), 0, 2_000).unwrap();
    assert!(!t.expired);
    assert!(t.updated.is_none());
    let t = Escrow::evaluate_milestone_timeout(Some(c.clone()), 1, 9_999).unwrap();
    assert!(!t.expired);
    let t = Escrow::evaluate_milestone_timeout(Some(c.clone()), 0, 2_001).unwrap();
    assert!(t.expired);
    let disputed = t.updated.unwrap();
    assert_eq!(disputed.status, ContractStatus::Disputed);
    // An already disputed contract reports the expiry but is not written again.
    let t = Escrow::evaluate_milestone_timeout(Some(disputed.clone()), 0, 2_001).unwrap();
    assert!(t.expired);
    assert!(t.updated.is_none());
    assert_eq!(
        Escrow::evaluate_milestone_timeout(Some(c), 2, 1).err(),
        Some(Rejection::InvalidMilestoneId)
    );
    assert_eq!(Escrow::evaluate_milestone_timeout(None, 0, 1).err(), Some(Rejection::ContractNotFound));

    // Resolution: only the arbiter, and only once no deadline is still expired.
    assert_eq!(
        Escrow::resolve_dispute(Some(disputed.clone()), &client(), 2_001).err(),
        Some(Rejection::NotDisputeResolver)
    );
    assert_eq!(
        Escrow::resolve_dispute(Some(disputed.clone()), &arbiter(), 2_001).err(),
        Some(Rejection::DeadlinesStillExpired)
    );
    let update = Escrow::set_milestone_schedule(Some(disputed), 0, schedule(Some(5_000)), 2_001, None, None).unwrap();
    assert_eq!(update.contract.milestones[0].deadline_at, Some(5_000));
    assert_eq!(update.schedule.updated_at, 2_001);
    let resolved = Escrow::resolve_dispute(Some(update.contract), &arbiter(), 2_001).unwrap();
    assert_eq!(resolved.status, ContractStatus::Funded);
    assert_eq!(Escrow::resolve_dispute(Some(resolved), &arbiter(), 2_001).err(), Some(Rejection::NotDisputed));
}

#[test]
fn dispute_without_arbiter_is_resolved_by_client() {
    let c = funded(vec![10], ReleaseAuthorization::ClientOnly, None, vec![Some(schedule(Some(2_000)))]);
    let disputed = Escrow::evaluate_milestone_timeout(Some(c), 0, 3_000).unwrap().updated.unwrap();
    assert_eq!(
        Escrow::resolve_dispute(Some(disputed.clone()), &freelancer(), 1_500).err(),
        Some(Rejection::NotDisputeResolver)
    );
    let resolved = Escrow::resolve_dispute(Some(disputed), &client(), 1_500).unwrap();
    assert_eq!(resolved.status, ContractStatus::Funded);
}

#[test]
fn set_milestone_schedule_rules() {
    let c = funded(vec![10, 20, 30], ReleaseAuthorization::ClientOnly, None, vec![]);
    assert_eq!(
        Escrow::set_milestone_schedule(Some(c.clone()), 3, schedule(None), 100, None, None).err(),
        Some(Rejection::MilestoneIndexOutOfRange)
    );
    assert_eq!(
        Escrow::set_milestone_schedule(Some(c.clone()), 1, schedule(Some(100)), 100, None, None).err(),
        Some(Rejection::InvalidScheduleMetadata)
    );
    let prev = Some(schedule(Some(500)));
    let next = Some(schedule(Some(900)));
    assert_eq!(
        Escrow::set_milestone_schedule(Some(c.clone()), 1, schedule(Some(500)), 100, prev.clone(), next.clone()).err(),
        Some(Rejection::DueDatesNotIncreasing)
    );
    assert_eq!(
        Escrow::set_milestone_schedule(Some(c.clone()), 1, schedule(Some(900)), 100, prev.clone(), next.clone()).err(),
        Some(Rejection::DueDatesNotIncreasing)
    );
    let ok = Escrow::set_milestone_schedule(Some(c.clone()), 1, schedule(Some(700)), 100, prev.clone(), next.clone()).unwrap();
    assert_eq!(ok.contract.milestones[1].deadline_at, Some(700));
    // The previous schedule is ignored for the first milestone, the next one for the last.
    assert!(Escrow::set_milestone_schedule(Some(c.clone()), 0, schedule(Some(300)), 100, prev.clone(), next.clone()).is_ok());
    assert!(Escrow::set_milestone_schedule(Some(c.clone()), 2, schedule(Some(950)), 100, prev.clone(), next.clone()).is_ok());
    assert_eq!(
        Escrow::set_milestone_schedule(Some(c.clone()), 2, schedule(Some(200)), 100, prev, next).err(),
        Some(Rejection::DueDatesNotIncreasing)
    );
    // Released milestones keep their schedule.
    let c = Escrow::approve_milestone_release(Some(c), client(), 0, 100).unwrap();
    let c = Escrow::release_milestone(Some(c), &client(), 0, 100, 0).unwrap().contract;
    assert_eq!(
        Escrow::set_milestone_schedule(Some(c), 0, schedule(None), 100, None, None).err(),
        Some(Rejection::ScheduleImmutable)
    );
    assert_eq!(
        Escrow::set_milestone_schedule(None, 0, schedule(None), 100, None, None).err(),
        Some(Rejection::ContractNotFound)
    );
}

#[test]
fn reputation_is_issued_once_for_completed_contracts() {
    let c = funded(vec![10], ReleaseAuthorization::ClientOnly, None, vec![]);
    assert_eq!(Escrow::issue_reputation(Some(c.clone()), 5, None).err(), Some(Rejection::NotCompleted));
    let c = Escrow::approve_milestone_release(Some(c), client(), 0, 1).unwrap();
    let out = Escrow::release_milestone(Some(c), &client(), 0, 1, 0).unwrap();
    assert_eq!(out.pending_credits, Some(1));
    let c = out.contract;
    assert_eq!(Escrow::issue_reputation(Some(c.clone()), 0, None).err(), Some(Rejection::RatingOutOfRange));
    assert_eq!(Escrow::issue_reputation(Some(c.clone()), 6, None).err(), Some(Rejection::RatingOutOfRange));
    let out = Escrow::issue_reputation(Some(c.clone()), 4, None).unwrap();
    assert_eq!(out.record, ReputationRecord { completed_contracts: 1, total_rating: 4, last_rating: 4 });
    assert!(out.contract.reputation_issued);
    assert_eq!(
        Escrow::issue_reputation(Some(out.contract), 3, Some(out.record)).err(),
        Some(Rejection::ReputationAlreadyIssued)
    );
    let previous = ReputationRecord { completed_contracts: 2, total_rating: 7, last_rating: 2 };
    let out = Escrow::issue_reputation(Some(c.clone()), 1, Some(previous)).unwrap();
    assert_eq!(out.record, ReputationRecord { completed_contracts: 3, total_rating: 8, last_rating: 1 });
    let full = ReputationRecord { completed_contracts: u32::MAX, total_rating: 0, last_rating: 0 };
    assert_eq!(Escrow::issue_reputation(Some(c), 1, Some(full)).err(), Some(Rejection::ArithmeticOverflow));
    assert_eq!(Escrow::issue_reputation(None, 1, None).err(), Some(Rejection::ContractNotFound));
}

#[test]
fn counters_and_lookups() {
    assert_eq!(Escrow::get_pending_reputation_credits(None), 0);
    assert_eq!(Escrow::get_pending_reputation_credits(Some(3)), 3);
    assert_eq!(Escrow::next_contract_id(None), 1);
    assert_eq!(Escrow::next_contract_id(Some(9)), 9);
    assert_eq!(Escrow::add_pending_reputation_credit(2), Ok(3));
    assert_eq!(Escrow::add_pending_reputation_credit(u32::MAX), Err(Rejection::ArithmeticOverflow));
    assert_eq!(Escrow::get_contract(None).err(), Some(Rejection::ContractNotFound));
    let c = create(vec![1], ReleaseAuthorization::ClientOnly, None, vec![]);
    assert_eq!(Escrow::get_contract(Some(c.clone())).unwrap(), c);
}

#[test]
fn addresses_compare_by_strkey() {
    assert!(client().same_as(&addr("GCLIENT")));
    assert!(!client().same_as(&addr("GCLIENT2")));
    assert!(!client().same_as(&addr("GCLIENX")));
    assert!(addr("").same_as(&addr("")));
}

#[test]
fn books_stay_balanced_through_a_full_run() {
    let c = funded(vec![30, 70], ReleaseAuthorization::ClientAndArbiter, Some(arbiter()), vec![]);
    let held = c.funded_amount - c.released_amount;
    assert!(held >= c.milestones[0].amount && held >= c.milestones[1].amount);
    let c = Escrow::approve_milestone_release(Some(c), client(), 1, 1).unwrap();
    let c = Escrow::release_milestone(Some(c), &arbiter(), 1, 1, 0).unwrap().contract;
    assert_eq!(c.funded_amount - c.released_amount, 30);
    assert!(c.released_amount <= c.funded_amount && c.funded_amount <= c.total_amount);
}

#[test]
fn completed_contract_is_final() {
    let c = funded(vec![10], ReleaseAuthorization::ClientOnly, Some(arbiter()), vec![Some(schedule(Some(2_000)))]);
    let c = Escrow::approve_milestone_release(Some(c), client(), 0, 1_500).unwrap();
    let c = Escrow::release_milestone(Some(c), &client(), 0, 1_500, 0).unwrap().contract;
    assert_eq!(c.status, ContractStatus::Completed);
    assert_eq!(Escrow::deposit_funds(Some(c.clone()), &client(), 1).err(), Some(Rejection::NotCreated));
    assert_eq!(
        Escrow::approve_milestone_release(Some(c.clone()), client(), 0, 1_500).err().map(|f| f.reason),
        Some(Rejection::NotFundedForApproval)
    );
    assert_eq!(Escrow::resolve_dispute(Some(c.clone()), &arbiter(), 1_500).err(), Some(Rejection::NotDisputed));
    // A released milestone never times out, so the contract stays completed.
    let t = Escrow::evaluate_milestone_timeout(Some(c.clone()), 0, 9_000).unwrap();
    assert!(!t.expired);
    assert!(t.updated.is_none());
    let issued = Escrow::issue_reputation(Some(c), 5, None).unwrap();
    assert_eq!(issued.contract.status, ContractStatus::Completed);
}

#[test]
fn authorizing_party_of_each_entry_point() {
    let c = create(vec![1], ReleaseAuthorization::ClientOnly, None, vec![]);
    let stored = Some(c);
    let caller = arbiter();
    for entry in [
        EntryPoint::CreateContract,
        EntryPoint::DepositFunds,
        EntryPoint::ApproveMilestoneRelease,
        EntryPoint::ReleaseMilestone,
        EntryPoint::ResolveDispute,
    ] {
        assert_eq!(Escrow::authorizing_party(entry, Some(&caller), &stored), Some(&caller));
    }
    assert_eq!(
        Escrow::authorizing_party(EntryPoint::SetMilestoneSchedule, Some(&caller), &stored),
        Some(&client())
    );
    assert_eq!(Escrow::authorizing_party(EntryPoint::SetMilestoneSchedule, None, &None), None);
    for entry in [
        EntryPoint::GetMilestoneSchedule,
        EntryPoint::EvaluateMilestoneTimeout,
        EntryPoint::IssueReputation,
        EntryPoint::GetContract,
        EntryPoint::GetReputation,
        EntryPoint::GetPendingReputationCredits,
        EntryPoint::Hello,
    ] {
        assert_eq!(Escrow::authorizing_party(entry, Some(&caller), &stored), None);
    }
}

#[test]
fn pending_credit_only_at_completion() {
    let c = funded(vec![10, 20], ReleaseAuthorization::ClientOnly, None, vec![]);
    let c = Escrow::approve_milestone_release(Some(c), client(), 0, 1).unwrap();
    let c = Escrow::approve_milestone_release(Some(c), client(), 1, 1).unwrap();
    let first = Escrow::release_milestone(Some(c), &client(), 1, 1, 7).unwrap();
    assert_eq!(first.pending_credits, None);
    let second = Escrow::release_milestone(Some(first.contract), &client(), 0, 1, 7).unwrap();
    assert_eq!(second.pending_credits, Some(8));
    assert_eq!(second.contract.status, ContractStatus::Completed);
    for id in 0..3 {
        assert_eq!(
            Escrow::release_milestone(Some(second.contract.clone()), &client(), id, 1, 8).err().map(|f| f.reason),
            Some(Rejection::NotFundedForRelease)
        );
    }
}

#[test]
fn expired_approval_or_release_moves_contract_to_disputed() {
    let c = funded(vec![10, 20], ReleaseAuthorization::ClientOnly, None, vec![Some(schedule(Some(2_000))), None]);
    let refused = Escrow::approve_milestone_release(Some(c.clone()), client(), 0, 2_001).err().unwrap();
    assert_eq!(refused.reason, Rejection::MilestoneExpired);
    let written = refused.disputed.unwrap();
    assert_eq!(written.status, ContractStatus::Disputed);
    assert!(written.milestones[0].approved_by.is_none());
    assert_eq!(written.funded_amount, c.funded_amount);

    let approved = Escrow::approve_milestone_release(Some(c), client(), 0, 2_000).unwrap();
    let refused = Escrow::release_milestone(Some(approved), &client(), 0, 2_001, 3).err().unwrap();
    assert_eq!(refused.reason, Rejection::MilestoneExpired);
    let written = refused.disputed.unwrap();
    assert_eq!(written.status, ContractStatus::Disputed);
    assert!(!written.milestones[0].released);
    assert_eq!(written.released_amount, 0);

    // Other refusals write nothing.
    let c = funded(vec![10], ReleaseAuthorization::ClientOnly, None, vec![]);
    let refused = Escrow::release_milestone(Some(c), &client(), 0, 5, 0).err().unwrap();
    assert_eq!(refused.reason, Rejection::InsufficientApprovals);
    assert!(refused.disputed.is_none());
}
