//! Owner-gated delegation of sending rights, paid for up front.
use vstd::prelude::*;
use crate::identity::{Identity, null_key};

verus! {

/// Fee for assigning a delegate, in token base units (10 of a 6-decimal token).
pub const DELEGATION_FEE: u64 = 10_000_000;

/// The singleton state of a mail-service deployment.
#[derive(Clone, Copy, Debug, PartialEq, Eq)]
pub struct MailServiceState {
    pub owner: Identity,
    pub usdc_mint: Identity,
    pub delegation_fee: u64,
    pub bump: u8,
}

/// Who, if anyone, may send on behalf of `delegator`.
#[derive(Clone, Copy, Debug, PartialEq, Eq)]
pub struct Delegation {
    pub delegator: Identity,
    pub delegate: Option<Identity>,
    pub bump: u8,
}

#[derive(Clone, Copy, Debug, PartialEq, Eq)]
pub struct DelegationSet {
    pub delegator: Identity,
    pub delegate: Option<Identity>,
}

#[derive(Clone, Copy, Debug, PartialEq, Eq)]
pub struct DelegationFeeUpdated {
    pub old_fee: u64,
    pub new_fee: u64,
}

#[derive(Clone, Copy, Debug, PartialEq, Eq, Structural)]
pub enum MailServiceError {
    OnlyOwner,
    NoDelegationToReject,
    InvalidDelegator,
}

/// Whether `delegate` names an actual delegate: present and not the reserved
/// all-zero identity. Only such an assignment is paid for.
pub open spec fn names_delegate(delegate: Option<Identity>) -> bool {
    match delegate {
        Some(d) => !null_key(d@),
        None => false,
    }
}

/// Whether `who` is the current delegate recorded in `d`.
pub open spec fn is_delegate_of(d: Delegation, who: Identity) -> bool {
    match d.delegate {
        Some(x) => x@ == who@,
        None => false,
    }
}

/// Creates the state of a new deployment, owned by `owner`.
pub fn initialize(owner: Identity, usdc_mint: Identity, bump: u8) -> (r: MailServiceState)
    ensures
        r == (MailServiceState { owner, usdc_mint, delegation_fee: DELEGATION_FEE, bump }),
{
    MailServiceState { owner, usdc_mint, delegation_fee: DELEGATION_FEE, bump }
}

/// Assigns (or, with `None` or the all-zero identity, clears) the delegate of
/// `delegator`.
///
/// Returns the fee to charge the delegator, which is due exactly when an
/// actual delegate is named, and the change record. The charge must succeed
/// before the updated record is stored.
pub fn delegate_to(
    delegation: &mut Delegation,
    service: &MailServiceState,
    delegator: Identity,
    delegate: Option<Identity>,
    bump: u8,
) -> (r: (Option<u64>, DelegationSet))
    ensures
        r.0 == (if names_delegate(delegate) {
            Some(service.delegation_fee)
        } else {
            None::<u64>
        }),
        *final(delegation) == (Delegation { delegator, delegate, bump }),
        r.1 == (DelegationSet { delegator, delegate }),
{
    let mut fee: Option<u64> = None;
    if let Some(d) = delegate {
        if !d.is_null() {
            fee = Some(service.delegation_fee);
        }
    }
    delegation.delegator = delegator;
    delegation.delegate = delegate;
    delegation.bump = bump;
    (fee, DelegationSet { delegator, delegate })
}

/// Lets the current delegate of `delegator` give the role up.
///
/// `delegator` must be the record's delegator, and `rejector` its current
/// delegate. No fee is involved.
pub fn reject_delegation(delegation: &mut Delegation, delegator: Identity, rejector: Identity) -> (r:
    Result<DelegationSet, MailServiceError>)
    ensures
        old(delegation).delegator@ != delegator@ ==> r == Err::<DelegationSet, MailServiceError>(
            MailServiceError::InvalidDelegator,
        ),
        old(delegation).delegator@ == delegator@ && !is_delegate_of(*old(delegation), rejector) ==> r == Err::<DelegationSet, MailServiceError>(
            MailServiceError::NoDelegationToReject,
        ),
        r is Ok <==> (old(delegation).delegator@ == delegator@ && is_delegate_of(
            *old(delegation),
            rejector,
        )),
        r is Ok ==> r == Ok::<DelegationSet, MailServiceError>(
            DelegationSet { delegator: old(delegation).delegator, delegate: None },
        ) && *final(delegation) == (Delegation { delegate: None, ..*old(delegation) }),
        r is Err ==> *final(delegation) == *old(delegation),
{
    if delegation.delegator != delegator {
        return Err(MailServiceError::InvalidDelegator);
    }
    let is_delegate = match delegation.delegate {
        Some(d) => d == rejector,
        None => false,
    };
    if !is_delegate {
        return Err(MailServiceError::NoDelegationToReject);
    }
    delegation.delegate = None;
    Ok(DelegationSet { delegator: delegation.delegator, delegate: None })
}

/// Replaces the delegation fee; `caller` must be the owner. Any value is taken.
pub fn set_delegation_fee(service: &mut MailServiceState, caller: Identity, new_fee: u64) -> (r:
    Result<DelegationFeeUpdated, MailServiceError>)
    ensures
        old(service).owner@ != caller@ ==> r == Err::<DelegationFeeUpdated, MailServiceError>(
            MailServiceError::OnlyOwner,
        ) && *final(service) == *old(service),
        old(service).owner@ == caller@ ==> r == Ok::<DelegationFeeUpdated, MailServiceError>(
            DelegationFeeUpdated { old_fee: old(service).delegation_fee, new_fee },
        ) && *final(service) == (MailServiceState { delegation_fee: new_fee, ..*old(service) }),
{
    if service.owner != caller {
        return Err(MailServiceError::OnlyOwner);
    }
    let old_fee = service.delegation_fee;
    service.delegation_fee = new_fee;
    Ok(DelegationFeeUpdated { old_fee, new_fee })
}

/// Authorises a withdrawal of `amount` from the service's custody to the
/// owner; `caller` must be the owner. No balance is tracked here: the token
/// gateway refuses what custody does not hold.
pub fn withdraw_fees(service: &MailServiceState, caller: Identity, amount: u64) -> (r: Result<
    u64,
    MailServiceError,
>)
    ensures
        service.owner@ != caller@ ==> r == Err::<u64, MailServiceError>(MailServiceError::OnlyOwner),
        service.owner@ == caller@ ==> r == Ok::<u64, MailServiceError>(amount),
{
    if service.owner != caller {
        return Err(MailServiceError::OnlyOwner);
    }
    Ok(amount)
}

} // verus!
