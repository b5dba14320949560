use vstd::prelude::*;

verus! {

/// Maximum length (in bytes) allowed for a milestone title string.
pub const MAX_SCHEDULE_TITLE_LEN: u32 = 128;

/// Maximum length (in bytes) allowed for a milestone description string.
pub const MAX_SCHEDULE_DESCRIPTION_LEN: u32 = 512;

/// An account or contract address, held as the bytes of its strkey text
/// (for example `GA...` or `CA...`). Two addresses are the same party exactly
/// when their strkeys are equal.
#[derive(Clone, Debug, PartialEq, Eq)]
pub struct Address {
    pub strkey: Vec<u8>,
}

impl View for Address {
    type V = Seq<u8>;

    open spec fn view(&self) -> Seq<u8> {
        self.strkey@
    }
}

impl Address {
    pub fn new(strkey: Vec<u8>) -> (a: Address)
        ensures
            a@ == strkey@,
    {
        Address { strkey }
    }

    /// Whether both addresses name the same party.
    pub fn same_as(&self, other: &Address) -> (same: bool)
        ensures
            same == (self@ == other@),
    {
        let n = self.strkey.len();
        if n != other.strkey.len() {
            return false;
        }
        let mut i: usize = 0;
        while i < n
            invariant
                n == self.strkey@.len(),
                n == other.strkey@.len(),
                i <= n,
                forall|j: int| 0 <= j < i ==> self.strkey@[j] == other.strkey@[j],
            decreases n - i,
        {
            if self.strkey[i] != other.strkey[i] {
                return false;
            }
            i = i + 1;
        }
        assert(self.strkey@ =~= other.strkey@);
        true
    }
}

/// `o` holds an address equal to `a`.
pub open spec fn holds_address(o: Option<Address>, a: Seq<u8>) -> bool {
    match o {
        Some(x) => x@ == a,
        None => false,
    }
}

/// Whether `o` holds an address equal to `a`.
pub fn option_holds(o: &Option<Address>, a: &Address) -> (r: bool)
    ensures
        r == holds_address(*o, a@),
{
    match o {
        Some(x) => x.same_as(a),
        None => false,
    }
}


/// Who must approve and may release a milestone.
#[derive(Clone, Copy, Debug, PartialEq, Eq, Structural)]
pub enum ReleaseAuthorization {
    ClientOnly,
    ArbiterOnly,
    ClientAndArbiter,
    MultiSig,
}

/// Life-cycle state of an escrow contract.
#[derive(Clone, Copy, Debug, PartialEq, Eq, Structural)]
pub enum ContractStatus {
    Created,
    Funded,
    Completed,
    Disputed,
}

/// Error codes of the escrow contract; schedule validation reports the
/// `Schedule*` ones.
#[derive(Clone, Copy, Debug, PartialEq, Eq, Structural)]
pub enum EscrowError {
    InvalidContractId,
    InvalidMilestoneId,
    AmountMustBePositive,
    InvalidRating,
    EmptyMilestones,
    InvalidParticipants,
    InvalidMilestoneAmount,
    InvalidAmount,
    FundingExceedsRequired,
    InvalidState,
    InsufficientEscrowBalance,
    MilestoneAlreadyReleased,
    MilestoneNotFound,
    ReputationAlreadyIssued,
    ContractNotFound,
    ScheduleDueDateInPast,
    ScheduleDatesNotMonotonic,
    ScheduleStringTooLong,
    ScheduleImmutableAfterRelease,
    ScheduleInvalidMilestoneIndex,
}

/// Why a call of the contract is aborted. An aborted call writes nothing.
#[derive(Clone, Copy, Debug, PartialEq, Eq, Structural)]
pub enum Rejection {
    ContractNotFound,
    EmptyMilestones,
    ClientIsFreelancer,
    ScheduleLengthMismatch,
    DueDatesNotIncreasing,
    InvalidScheduleMetadata,
    NonPositiveMilestoneAmount,
    NonPositiveDeposit,
    NotClient,
    NotCreated,
    DepositExceedsTotal,
    NotFundedForApproval,
    NotFundedForRelease,
    InvalidMilestoneId,
    CallerNotAuthorized,
    MilestoneAlreadyReleased,
    AlreadyApprovedByCaller,
    MilestoneExpired,
    InsufficientApprovals,
    InsufficientEscrowBalance,
    NotDisputed,
    NotDisputeResolver,
    DeadlinesStillExpired,
    MilestoneIndexOutOfRange,
    ScheduleImmutable,
    NotCompleted,
    ReputationAlreadyIssued,
    RatingOutOfRange,
    ArithmeticOverflow,
}

/// Optional scheduling information attached to a single milestone.
///
/// The `due_date` is policy-enforced by the contract: approval and release
/// are allowed at the exact deadline, but once ledger time moves strictly past
/// the deadline the contract auto-transitions to `Disputed` (on the refused
/// approval or release, or on a timeout check). Title and description are held
/// as bytes.
#[derive(Clone, Debug, PartialEq, Eq)]
pub struct MilestoneSchedule {
    pub due_date: Option<u64>,
    pub title: Option<Vec<u8>>,
    pub description: Option<Vec<u8>>,
    pub updated_at: u64,
}

#[derive(Clone, Debug, PartialEq, Eq)]
pub struct Milestone {
    pub amount: i128,
    pub released: bool,
    pub approved_by: Option<Address>,
    pub approval_timestamp: Option<u64>,
    /// Deterministic deadline used for timeout enforcement.
    pub deadline_at: Option<u64>,
}

#[derive(Clone, Debug, PartialEq, Eq)]
pub struct EscrowContractData {
    pub client: Address,
    pub freelancer: Address,
    pub arbiter: Option<Address>,
    pub milestones: Vec<Milestone>,
    pub total_amount: i128,
    pub funded_amount: i128,
    pub released_amount: i128,
    pub released_milestones: u32,
    pub status: ContractStatus,
    pub release_auth: ReleaseAuthorization,
    pub reputation_issued: bool,
    pub created_at: u64,
}

#[derive(Clone, Copy, Debug, PartialEq, Eq, Structural)]
pub struct ReputationRecord {
    pub completed_contracts: u32,
    pub total_rating: i128,
    pub last_rating: i128,
}

/// A refused approval or release: why it was refused, and the contract to
/// write back despite the refusal. A milestone found past its deadline moves
/// its `Funded` contract to `Disputed`; that move is kept although the
/// approval or release itself is refused.
#[derive(Debug)]
pub struct Refused {
    pub reason: Rejection,
    pub disputed: Option<EscrowContractData>,
}

impl Refused {
    /// A refusal that writes nothing.
    pub fn only(reason: Rejection) -> (r: Refused)
        ensures
            r.reason == reason,
            r.disputed is None,
    {
        Refused { reason, disputed: None }
    }
}

/// What a successful `create_contract` writes: the new contract under
/// `contract_id`, the counter `next_contract_id`, and each given schedule
/// (stamped with the ledger time) under its milestone index.
pub struct NewContract {
    pub contract_id: u32,
    pub next_contract_id: u32,
    pub contract: EscrowContractData,
    pub schedules: Vec<Option<MilestoneSchedule>>,
}

/// What a successful `release_milestone` writes: the contract, and, when the
/// release completed it, the freelancer's new count of pending reputation
/// credits.
pub struct Release {
    pub contract: EscrowContractData,
    pub pending_credits: Option<u32>,
}

/// What a successful `set_milestone_schedule` writes.
pub struct ScheduleUpdate {
    pub contract: EscrowContractData,
    pub schedule: MilestoneSchedule,
}

/// The answer of `evaluate_milestone_timeout`, and the contract to write back
/// when the check moved it to `Disputed`.
pub struct TimeoutCheck {
    pub expired: bool,
    pub updated: Option<EscrowContractData>,
}

/// What a successful `issue_reputation` writes.
pub struct ReputationIssue {
    pub contract: EscrowContractData,
    pub record: ReputationRecord,
}

} // verus!
