//! Which party must authorize each call of the contract.
use vstd::prelude::*;

use crate::escrow::Escrow;
use crate::types::{Address, EscrowContractData};

verus! {

/// The contract's entry points.
#[derive(Clone, Copy, Debug, PartialEq, Eq, Structural)]
pub enum EntryPoint {
    CreateContract,
    DepositFunds,
    ApproveMilestoneRelease,
    ReleaseMilestone,
    ResolveDispute,
    SetMilestoneSchedule,
    GetMilestoneSchedule,
    EvaluateMilestoneTimeout,
    IssueReputation,
    GetContract,
    GetReputation,
    GetPendingReputationCredits,
    Hello,
}

/// The party whose authorization a call needs: for `create_contract` the
/// client it names (given as `caller`); for deposits, approvals, releases and
/// dispute resolution the caller; for setting a schedule the client of the
/// stored contract (none when no contract is stored, which is rejected
/// anyway); no one for the other entry points.
pub open spec fn required_authorizer(
    entry: EntryPoint,
    caller: Option<Address>,
    stored: Option<EscrowContractData>,
) -> Option<Address> {
    match entry {
        EntryPoint::CreateContract => caller,
        EntryPoint::DepositFunds => caller,
        EntryPoint::ApproveMilestoneRelease => caller,
        EntryPoint::ReleaseMilestone => caller,
        EntryPoint::ResolveDispute => caller,
        EntryPoint::SetMilestoneSchedule => match stored {
            Some(c) => Some(c.client),
            None => None,
        },
        _ => None,
    }
}

/// The address behind an optional reference.
pub open spec fn deref_address(o: Option<&Address>) -> Option<Address> {
    match o {
        Some(a) => Some(*a),
        None => None,
    }
}

impl Escrow {
    /// The party that must authorize a call of `entry`, where `caller` is the
    /// address the call names as acting party (the client for
    /// `create_contract`) and `stored` the contract it works on.
    pub fn authorizing_party<'a>(
        entry: EntryPoint,
        caller: Option<&'a Address>,
        stored: &'a Option<EscrowContractData>,
    ) -> (r: Option<&'a Address>)
        ensures
            r is Some <==> required_authorizer(entry, deref_address(caller), *stored) is Some,
            r matches Some(a) ==> *a == required_authorizer(entry, deref_address(caller), *stored).unwrap(),
    {
        match entry {
            EntryPoint::CreateContract | EntryPoint::DepositFunds | EntryPoint::ApproveMilestoneRelease
            | EntryPoint::ReleaseMilestone | EntryPoint::ResolveDispute => caller,
            EntryPoint::SetMilestoneSchedule => match stored {
                Some(c) => Some(&c.client),
                None => None,
            },
            _ => None,
        }
    }
}

} // verus!
