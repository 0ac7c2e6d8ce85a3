use mailbox::identity::Identity;
use mailbox::mail_service::{
    delegate_to, initialize, reject_delegation, set_delegation_fee, withdraw_fees, Delegation,
    DelegationFeeUpdated, DelegationSet, MailServiceError, DELEGATION_FEE,
};

fn key(b: u8) -> Identity {
    Identity::from_bytes([b; 32])
}

fn blank() -> Delegation {
    Delegation { delegator: Identity::null(), delegate: None, bump: 0 }
}

#[test]
fn service_initializes_with_default_fee() {
    let s = initialize(key(1), key(9), 200);
    assert_eq!(s.owner, key(1));
    assert_eq!(s.delegation_fee, 10_000_000);
    assert_eq!(DELEGATION_FEE, 10_000_000);
    assert_eq!(s.bump, 200);
}

#[test]
fn naming_a_delegate_is_charged() {
    let s = initialize(key(1), key(9), 200);
    let mut d = blank();
    let (fee, ev) = delegate_to(&mut d, &s, key(2), Some(key(3)), 7);
    assert_eq!(fee, Some(10_000_000));
    assert_eq!(ev, DelegationSet { delegator: key(2), delegate: Some(key(3)) });
    assert_eq!(d, Delegation { delegator: key(2), delegate: Some(key(3)), bump: 7 });
    let (fee, _) = delegate_to(&mut d, &s, key(2), Some(key(4)), 7);
    assert_eq!(fee, Some(10_000_000));
    assert_eq!(d.delegate, Some(key(4)));
}

#[test]
fn clearing_a_delegate_is_free() {
    let s = initialize(key(1), key(9), 200);
    let mut d = blank();
    delegate_to(&mut d, &s, key(2), Some(key(3)), 7);
    let (fee, ev) = delegate_to(&mut d, &s, key(2), None, 7);
    assert_eq!(fee, None);
    assert_eq!(ev.delegate, None);
    assert_eq!(d.delegate, None);
    let (fee, _) = delegate_to(&mut d, &s, key(2), Some(Identity::null()), 7);
    assert_eq!(fee, None);
    assert_eq!(d.delegate, Some(Identity::null()));
}

#[test]
fn delegation_fee_follows_updates() {
    let mut s = initialize(key(1), key(9), 200);
    assert_eq!(set_delegation_fee(&mut s, key(2), 5), Err(MailServiceError::OnlyOwner));
    assert_eq!(s.delegation_fee, 10_000_000);
    assert_eq!(
        set_delegation_fee(&mut s, key(1), 5),
        Ok(DelegationFeeUpdated { old_fee: 10_000_000, new_fee: 5 })
    );
    let mut d = blank();
    let (fee, _) = delegate_to(&mut d, &s, key(2), Some(key(3)), 7);
    assert_eq!(fee, Some(5));
}

#[test]
fn delegate_may_reject() {
    let s = initialize(key(1), key(9), 200);
    let mut d = blank();
    delegate_to(&mut d, &s, key(2), Some(key(3)), 7);
    let r = reject_delegation(&mut d, key(2), key(3));
    assert_eq!(r, Ok(DelegationSet { delegator: key(2), delegate: None }));
    assert_eq!(d, Delegation { delegator: key(2), delegate: None, bump: 7 });
}

#[test]
fn only_current_delegate_may_reject() {
    let s = initialize(key(1), key(9), 200);
    let mut d = blank();
    delegate_to(&mut d, &s, key(2), Some(key(3)), 7);
    assert_eq!(reject_delegation(&mut d, key(2), key(4)), Err(MailServiceError::NoDelegationToReject));
    assert_eq!(reject_delegation(&mut d, key(5), key(3)), Err(MailServiceError::InvalidDelegator));
    assert_eq!(d.delegate, Some(key(3)));
    reject_delegation(&mut d, key(2), key(3)).unwrap();
    assert_eq!(reject_delegation(&mut d, key(2), key(3)), Err(MailServiceError::NoDelegationToReject));
}

#[test]
fn withdrawal_is_owner_only_and_untracked() {
    let s = initialize(key(1), key(9), 200);
    assert_eq!(withdraw_fees(&s, key(2), 10), Err(MailServiceError::OnlyOwner));
    assert_eq!(withdraw_fees(&s, key(1), u64::MAX), Ok(u64::MAX));
}

#[test]
fn identity_null_and_equality() {
    assert!(Identity::null().is_null());
    assert!(!key(1).is_null());
    let mut b = [0u8; 32];
    b[31] = 1;
    assert!(!Identity::from_bytes(b).is_null());
    assert!(key(1) == key(1));
    assert!(key(1) != Identity::from_bytes(b));
}
