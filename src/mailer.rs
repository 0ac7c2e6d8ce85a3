//! Pay-per-message mail with fee collection and time-boxed revenue sharing.
//!
//! Every operation is a transition on plain records: the caller hands in the
//! records it loaded, the identity that signed, and the clock reading; it gets
//! back the updated records, the amount that must move through the token
//! gateway, and the event to publish.
use vstd::prelude::*;
use crate::identity::Identity;

verus! {

/// Base sending fee in token base units (0.1 of a 6-decimal token).
pub const SEND_FEE: u64 = 100_000;

/// How long a revenue share stays claimable: 60 days, in seconds.
pub const CLAIM_PERIOD: i64 = 60 * 24 * 60 * 60;

/// Percentage of a priority fee returned to the sender; applied implicitly,
/// as what is left after the operator's share.
pub const RECIPIENT_SHARE: u64 = 90;

/// Percentage of every fee kept by the operator.
pub const OWNER_SHARE: u64 = 10;

/// The singleton state of a mailer deployment.
#[derive(Clone, Copy, Debug, PartialEq, Eq)]
pub struct MailerState {
    pub owner: Identity,
    pub usdc_mint: Identity,
    pub send_fee: u64,
    pub owner_claimable: u64,
    pub bump: u8,
}

/// The revenue share that one identity may claim back.
#[derive(Clone, Copy, Debug, PartialEq, Eq)]
pub struct RecipientClaim {
    pub recipient: Identity,
    pub amount: u64,
    pub timestamp: i64,
    pub bump: u8,
}

#[derive(Debug, PartialEq, Eq)]
pub struct MailSent {
    pub from: Identity,
    pub to: Identity,
    pub subject: String,
    pub body: String,
}

#[derive(Debug, PartialEq, Eq)]
pub struct PreparedMailSent {
    pub from: Identity,
    pub to: Identity,
    pub mail_id: String,
}

#[derive(Clone, Copy, Debug, PartialEq, Eq)]
pub struct FeeUpdated {
    pub old_fee: u64,
    pub new_fee: u64,
}

#[derive(Clone, Copy, Debug, PartialEq, Eq)]
pub struct SharesRecorded {
    pub recipient: Identity,
    pub recipient_amount: u64,
    pub owner_amount: u64,
}

#[derive(Clone, Copy, Debug, PartialEq, Eq)]
pub struct RecipientClaimed {
    pub recipient: Identity,
    pub amount: u64,
}

#[derive(Clone, Copy, Debug, PartialEq, Eq)]
pub struct OwnerClaimed {
    pub amount: u64,
}

#[derive(Clone, Copy, Debug, PartialEq, Eq)]
pub struct ExpiredSharesClaimed {
    pub recipient: Identity,
    pub amount: u64,
}

#[derive(Clone, Copy, Debug, PartialEq, Eq, Structural)]
pub enum MailerError {
    OnlyOwner,
    NoClaimableAmount,
    ClaimPeriodExpired,
    ClaimPeriodNotExpired,
    InvalidRecipient,
}

/// The operator's cut of a fee: `floor(total * OWNER_SHARE / 100)`.
pub open spec fn owner_part(total: int) -> int {
    total * (OWNER_SHARE as int) / 100
}

/// What is left of a fee for the sender once the operator's cut is taken.
pub open spec fn recipient_part(total: int) -> int {
    total - owner_part(total)
}

/// A fee's two parts are whole amounts that add up to the fee exactly.
pub proof fn lemma_split_is_exact(total: int)
    requires
        total >= 0,
    ensures
        0 <= owner_part(total) <= total,
        0 <= recipient_part(total) <= total,
        owner_part(total) + recipient_part(total) == total,
{
}

impl RecipientClaim {
    /// A record that holds nothing has no open claim window.
    pub open spec fn wf(&self) -> bool {
        self.amount == 0 ==> self.timestamp == 0
    }
}

/// The claim after `total` was paid in by a priority send at time `now`.
///
/// A window opens at `now` only when the send adds to the balance and none is
/// open yet: a send that adds nothing leaves an empty record without a window.
pub open spec fn accrued(c: RecipientClaim, recipient: Identity, total: u64, now: i64) -> RecipientClaim {
    RecipientClaim {
        recipient,
        amount: (c.amount + recipient_part(total as int)) as u64,
        timestamp: if c.timestamp == 0 && recipient_part(total as int) > 0 {
            now
        } else {
            c.timestamp
        },
        bump: c.bump,
    }
}

/// The mailer state after `amount` was added to the operator's balance.
pub open spec fn credited(m: MailerState, amount: int) -> MailerState {
    MailerState { owner_claimable: (m.owner_claimable + amount) as u64, ..m }
}

/// The claim after its balance was paid out or swept.
pub open spec fn cleared(c: RecipientClaim) -> RecipientClaim {
    RecipientClaim { amount: 0, timestamp: 0, ..c }
}

/// Whether the balances stay within `u64` when `total` is split into them.
pub open spec fn shares_fit(c: RecipientClaim, m: MailerState, total: u64) -> bool {
    &&& c.amount + recipient_part(total as int) <= u64::MAX
    &&& m.owner_claimable + owner_part(total as int) <= u64::MAX
}

/// The share-split record for `total` paid in by `recipient`.
pub open spec fn split_of(recipient: Identity, total: u64) -> SharesRecorded {
    SharesRecorded {
        recipient,
        recipient_amount: recipient_part(total as int) as u64,
        owner_amount: owner_part(total as int) as u64,
    }
}

fn owner_share_of(total: u64) -> (r: u64)
    ensures
        r == owner_part(total as int),
{
    let wide = (total as u128) * (OWNER_SHARE as u128) / 100;
    wide as u64
}

/// Splits a paid fee between the payer's claim and the operator's balance.
///
/// The operator's cut is rounded down and the payer's part is the rest, so the
/// two always add up to `total_amount`. The claim window opens at `now` unless
/// one is already open.
pub fn record_shares(
    claim: &mut RecipientClaim,
    mailer: &mut MailerState,
    recipient: Identity,
    total_amount: u64,
    now: i64,
) -> (r: SharesRecorded)
    requires
        shares_fit(*old(claim), *old(mailer), total_amount),
    ensures
        *final(claim) == accrued(*old(claim), recipient, total_amount, now),
        *final(mailer) == credited(*old(mailer), owner_part(total_amount as int)),
        r == split_of(recipient, total_amount),
        r.recipient_amount + r.owner_amount == total_amount,
        old(claim).wf() ==> final(claim).wf(),
{
    proof {
        lemma_split_is_exact(total_amount as int);
    }
    let owner_amount = owner_share_of(total_amount);
    let recipient_amount = total_amount - owner_amount;
    claim.recipient = recipient;
    claim.amount = claim.amount + recipient_amount;
    if claim.timestamp == 0 && recipient_amount > 0 {
        claim.timestamp = now;
    }
    mailer.owner_claimable = mailer.owner_claimable + owner_amount;
    SharesRecorded { recipient, recipient_amount, owner_amount }
}

/// Whether the operator's balance stays within `u64` after a standard send.
pub open spec fn standard_fits(m: MailerState) -> bool {
    m.owner_claimable + owner_part(m.send_fee as int) <= u64::MAX
}

/// Whether a sweep by `caller` at `now` that would succeed keeps the
/// operator's balance within `u64`.
pub open spec fn sweep_fits(c: RecipientClaim, m: MailerState, caller: Identity, now: i64) -> bool {
    m.owner@ == caller@ && expirable_at(c, now) ==> m.owner_claimable + c.amount <= u64::MAX
}

/// Whether a claim's window is still open at `now`; the last instant of the
/// window counts as open.
pub open spec fn within_window(c: RecipientClaim, now: i64) -> bool {
    now as int <= c.timestamp as int + CLAIM_PERIOD as int
}

/// Whether the holder of `c` may claim it at `now`.
pub open spec fn claimable_at(c: RecipientClaim, now: i64) -> bool {
    c.amount > 0 && within_window(c, now)
}

/// Whether the operator may sweep `c` at `now`.
pub open spec fn expirable_at(c: RecipientClaim, now: i64) -> bool {
    c.amount > 0 && !within_window(c, now)
}

/// Creates the state of a new deployment, owned by `owner`.
pub fn initialize(owner: Identity, usdc_mint: Identity, bump: u8) -> (r: MailerState)
    ensures
        r == (MailerState { owner, usdc_mint, send_fee: SEND_FEE, owner_claimable: 0, bump }),
{
    MailerState { owner, usdc_mint, send_fee: SEND_FEE, owner_claimable: 0, bump }
}

/// Whether a priority send from the holder of `claim` keeps every balance
/// within `u64`.
pub fn priority_send_fits(claim: &RecipientClaim, mailer: &MailerState) -> (r: bool)
    ensures
        r == shares_fit(*claim, *mailer, mailer.send_fee),
{
    proof {
        lemma_split_is_exact(mailer.send_fee as int);
    }
    let owner_amount = owner_share_of(mailer.send_fee);
    let recipient_amount = mailer.send_fee - owner_amount;
    recipient_amount <= u64::MAX - claim.amount && owner_amount <= u64::MAX - mailer.owner_claimable
}

/// Whether a standard send keeps the operator's balance within `u64`.
pub fn standard_send_fits(mailer: &MailerState) -> (r: bool)
    ensures
        r == standard_fits(*mailer),
{
    owner_share_of(mailer.send_fee) <= u64::MAX - mailer.owner_claimable
}

/// Sends a priority message from `sender` to itself.
///
/// Returns the fee to charge the sender (the whole `send_fee`), the share
/// split, and the message record. The charge must succeed before the updated
/// records are stored.
pub fn send_priority(
    claim: &mut RecipientClaim,
    mailer: &mut MailerState,
    sender: Identity,
    subject: String,
    body: String,
    now: i64,
) -> (r: (u64, SharesRecorded, MailSent))
    requires
        shares_fit(*old(claim), *old(mailer), old(mailer).send_fee),
    ensures
        r.0 == old(mailer).send_fee,
        *final(claim) == accrued(*old(claim), sender, old(mailer).send_fee, now),
        *final(mailer) == credited(*old(mailer), owner_part(old(mailer).send_fee as int)),
        r.1 == split_of(sender, old(mailer).send_fee),
        r.2 == (MailSent { from: sender, to: sender, subject, body }),
{
    let send_fee = mailer.send_fee;
    let shares = record_shares(claim, mailer, sender, send_fee, now);
    (send_fee, shares, MailSent { from: sender, to: sender, subject, body })
}

/// Sends a priority message, given by a prepared identifier, from `sender`
/// to itself. Fees and shares are those of [`send_priority`].
pub fn send_priority_prepared(
    claim: &mut RecipientClaim,
    mailer: &mut MailerState,
    sender: Identity,
    mail_id: String,
    now: i64,
) -> (r: (u64, SharesRecorded, PreparedMailSent))
    requires
        shares_fit(*old(claim), *old(mailer), old(mailer).send_fee),
    ensures
        r.0 == old(mailer).send_fee,
        *final(claim) == accrued(*old(claim), sender, old(mailer).send_fee, now),
        *final(mailer) == credited(*old(mailer), owner_part(old(mailer).send_fee as int)),
        r.1 == split_of(sender, old(mailer).send_fee),
        r.2 == (PreparedMailSent { from: sender, to: sender, mail_id }),
{
    let send_fee = mailer.send_fee;
    let shares = record_shares(claim, mailer, sender, send_fee, now);
    (send_fee, shares, PreparedMailSent { from: sender, to: sender, mail_id })
}

/// Sends a standard message from `sender` to itself.
///
/// Returns the fee to charge, which is only the operator's cut of
/// `send_fee`, and the message record. The whole fee goes to the operator;
/// no claim is touched.
pub fn send(mailer: &mut MailerState, sender: Identity, subject: String, body: String) -> (r: (
    u64,
    MailSent,
))
    requires
        standard_fits(*old(mailer)),
    ensures
        r.0 == owner_part(old(mailer).send_fee as int),
        *final(mailer) == credited(*old(mailer), owner_part(old(mailer).send_fee as int)),
        r.1 == (MailSent { from: sender, to: sender, subject, body }),
{
    let owner_fee = owner_share_of(mailer.send_fee);
    mailer.owner_claimable = mailer.owner_claimable + owner_fee;
    (owner_fee, MailSent { from: sender, to: sender, subject, body })
}

/// Sends a standard message, given by a prepared identifier, from `sender`
/// to itself. Fees are those of [`send`].
pub fn send_prepared(mailer: &mut MailerState, sender: Identity, mail_id: String) -> (r: (
    u64,
    PreparedMailSent,
))
    requires
        standard_fits(*old(mailer)),
    ensures
        r.0 == owner_part(old(mailer).send_fee as int),
        *final(mailer) == credited(*old(mailer), owner_part(old(mailer).send_fee as int)),
        r.1 == (PreparedMailSent { from: sender, to: sender, mail_id }),
{
    let owner_fee = owner_share_of(mailer.send_fee);
    mailer.owner_claimable = mailer.owner_claimable + owner_fee;
    (owner_fee, PreparedMailSent { from: sender, to: sender, mail_id })
}

/// Whether a sweep of `claim` by `caller` at `now` keeps the operator's
/// balance within `u64` in case it succeeds.
pub fn expired_sweep_fits(claim: &RecipientClaim, mailer: &MailerState, caller: Identity, now: i64) -> (r:
    bool)
    ensures
        r == sweep_fits(*claim, *mailer, caller, now),
{
    if mailer.owner != caller || claim.amount == 0 || window_open(claim, now) {
        return true;
    }
    claim.amount <= u64::MAX - mailer.owner_claimable
}

fn window_open(claim: &RecipientClaim, now: i64) -> (r: bool)
    ensures
        r == within_window(*claim, now),
{
    (now as i128) <= (claim.timestamp as i128) + (CLAIM_PERIOD as i128)
}

/// Pays out the claim of `recipient`, who must be the claim's holder.
///
/// On success the claim is emptied and its window closed; the returned record
/// carries the amount to transfer to the recipient.
pub fn claim_recipient_share(claim: &mut RecipientClaim, recipient: Identity, now: i64) -> (r:
    Result<RecipientClaimed, MailerError>)
    ensures
        old(claim).recipient@ != recipient@ ==> r == Err::<RecipientClaimed, MailerError>(
            MailerError::InvalidRecipient,
        ),
        old(claim).recipient@ == recipient@ && old(claim).amount == 0 ==> r == Err::<
            RecipientClaimed,
            MailerError,
        >(MailerError::NoClaimableAmount),
        old(claim).recipient@ == recipient@ && old(claim).amount > 0 && !within_window(
            *old(claim),
            now,
        ) ==> r == Err::<RecipientClaimed, MailerError>(MailerError::ClaimPeriodExpired),
        r is Ok <==> (old(claim).recipient@ == recipient@ && claimable_at(*old(claim), now)),
        r is Ok ==> r == Ok::<RecipientClaimed, MailerError>(
            RecipientClaimed { recipient, amount: old(claim).amount },
        ) && *final(claim) == cleared(*old(claim)),
        r is Err ==> *final(claim) == *old(claim),
{
    if claim.recipient != recipient {
        return Err(MailerError::InvalidRecipient);
    }
    if claim.amount == 0 {
        return Err(MailerError::NoClaimableAmount);
    }
    if !window_open(claim, now) {
        return Err(MailerError::ClaimPeriodExpired);
    }
    let amount = claim.amount;
    claim.amount = 0;
    claim.timestamp = 0;
    Ok(RecipientClaimed { recipient, amount })
}

/// Pays out the operator's whole balance to `caller`, who must be the owner.
pub fn claim_owner_share(mailer: &mut MailerState, caller: Identity) -> (r: Result<
    OwnerClaimed,
    MailerError,
>)
    ensures
        old(mailer).owner@ != caller@ ==> r == Err::<OwnerClaimed, MailerError>(
            MailerError::OnlyOwner,
        ),
        old(mailer).owner@ == caller@ && old(mailer).owner_claimable == 0 ==> r == Err::<
            OwnerClaimed,
            MailerError,
        >(MailerError::NoClaimableAmount),
        r is Ok <==> (old(mailer).owner@ == caller@ && old(mailer).owner_claimable > 0),
        r is Ok ==> r == Ok::<OwnerClaimed, MailerError>(
            OwnerClaimed { amount: old(mailer).owner_claimable },
        ) && *final(mailer) == (MailerState { owner_claimable: 0, ..*old(mailer) }),
        r is Err ==> *final(mailer) == *old(mailer),
{
    if mailer.owner != caller {
        return Err(MailerError::OnlyOwner);
    }
    if mailer.owner_claimable == 0 {
        return Err(MailerError::NoClaimableAmount);
    }
    let amount = mailer.owner_claimable;
    mailer.owner_claimable = 0;
    Ok(OwnerClaimed { amount })
}

/// Moves a claim whose window has passed into the operator's balance;
/// `caller` must be the owner. No tokens move: they are already held.
pub fn claim_expired_shares(
    claim: &mut RecipientClaim,
    mailer: &mut MailerState,
    caller: Identity,
    now: i64,
) -> (r: Result<ExpiredSharesClaimed, MailerError>)
    requires
        sweep_fits(*old(claim), *old(mailer), caller, now),
    ensures
        old(mailer).owner@ != caller@ ==> r == Err::<ExpiredSharesClaimed, MailerError>(
            MailerError::OnlyOwner,
        ),
        old(mailer).owner@ == caller@ && old(claim).amount == 0 ==> r == Err::<
            ExpiredSharesClaimed,
            MailerError,
        >(MailerError::NoClaimableAmount),
        old(mailer).owner@ == caller@ && old(claim).amount > 0 && within_window(*old(claim), now)
            ==> r == Err::<ExpiredSharesClaimed, MailerError>(MailerError::ClaimPeriodNotExpired),
        r is Ok <==> (old(mailer).owner@ == caller@ && expirable_at(*old(claim), now)),
        r is Ok ==> r == Ok::<ExpiredSharesClaimed, MailerError>(
            ExpiredSharesClaimed { recipient: old(claim).recipient, amount: old(claim).amount },
        ) && *final(claim) == cleared(*old(claim)) && *final(mailer) == credited(
            *old(mailer),
            old(claim).amount as int,
        ),
        r is Err ==> *final(claim) == *old(claim) && *final(mailer) == *old(mailer),
{
    if mailer.owner != caller {
        return Err(MailerError::OnlyOwner);
    }
    if claim.amount == 0 {
        return Err(MailerError::NoClaimableAmount);
    }
    if window_open(claim, now) {
        return Err(MailerError::ClaimPeriodNotExpired);
    }
    let amount = claim.amount;
    claim.amount = 0;
    claim.timestamp = 0;
    mailer.owner_claimable = mailer.owner_claimable + amount;
    Ok(ExpiredSharesClaimed { recipient: claim.recipient, amount })
}

/// Replaces the send fee; `caller` must be the owner. Any value is taken.
pub fn set_fee(mailer: &mut MailerState, caller: Identity, new_fee: u64) -> (r: Result<
    FeeUpdated,
    MailerError,
>)
    ensures
        old(mailer).owner@ != caller@ ==> r == Err::<FeeUpdated, MailerError>(
            MailerError::OnlyOwner,
        ) && *final(mailer) == *old(mailer),
        old(mailer).owner@ == caller@ ==> r == Ok::<FeeUpdated, MailerError>(
            FeeUpdated { old_fee: old(mailer).send_fee, new_fee },
        ) && *final(mailer) == (MailerState { send_fee: new_fee, ..*old(mailer) }),
{
    if mailer.owner != caller {
        return Err(MailerError::OnlyOwner);
    }
    let old_fee = mailer.send_fee;
    mailer.send_fee = new_fee;
    Ok(FeeUpdated { old_fee, new_fee })
}

/// The sum of the operator's cuts of `fees`.
pub open spec fn sum_owner_parts(fees: Seq<u64>) -> int
    decreases fees.len(),
{
    if fees.len() == 0 {
        0
    } else {
        sum_owner_parts(fees.drop_last()) + owner_part(fees.last() as int)
    }
}

/// The sum of the payer parts of `fees`.
pub open spec fn sum_recipient_parts(fees: Seq<u64>) -> int
    decreases fees.len(),
{
    if fees.len() == 0 {
        0
    } else {
        sum_recipient_parts(fees.drop_last()) + recipient_part(fees.last() as int)
    }
}

/// The sum of `fees`.
pub open spec fn sum_fees(fees: Seq<u64>) -> int
    decreases fees.len(),
{
    if fees.len() == 0 {
        0
    } else {
        sum_fees(fees.drop_last()) + fees.last() as int
    }
}

/// The claim of `recipient` and the mailer state after priority sends by
/// `recipient` that paid `fees[i]` at `times[i]`, in order.
pub open spec fn accrued_all(
    c: RecipientClaim,
    m: MailerState,
    recipient: Identity,
    fees: Seq<u64>,
    times: Seq<i64>,
) -> (RecipientClaim, MailerState)
    decreases fees.len(),
{
    if fees.len() == 0 || times.len() == 0 {
        (c, m)
    } else {
        let prev = accrued_all(c, m, recipient, fees.drop_last(), times.drop_last());
        (
            accrued(prev.0, recipient, fees.last(), times.last()),
            credited(prev.1, owner_part(fees.last() as int)),
        )
    }
}

proof fn lemma_sums_nonnegative(fees: Seq<u64>)
    ensures
        sum_owner_parts(fees) >= 0,
        sum_recipient_parts(fees) >= 0,
        sum_owner_parts(fees) + sum_recipient_parts(fees) == sum_fees(fees),
    decreases fees.len(),
{
    if fees.len() > 0 {
        lemma_sums_nonnegative(fees.drop_last());
        lemma_split_is_exact(fees.last() as int);
    }
}

/// Over any run of priority sends by one identity, its claim grows by exactly
/// the sum of the payer parts and the operator's balance by exactly the sum of
/// the cuts, which together account for every fee paid; nothing else in the
/// mailer state changes.
pub proof fn lemma_priority_sends_accumulate(
    c: RecipientClaim,
    m: MailerState,
    recipient: Identity,
    fees: Seq<u64>,
    times: Seq<i64>,
)
    requires
        fees.len() == times.len(),
        c.amount + sum_recipient_parts(fees) <= u64::MAX,
        m.owner_claimable + sum_owner_parts(fees) <= u64::MAX,
    ensures
        accrued_all(c, m, recipient, fees, times).0.amount == c.amount + sum_recipient_parts(fees),
        accrued_all(c, m, recipient, fees, times).1 == (MailerState {
            owner_claimable: (m.owner_claimable + sum_owner_parts(fees)) as u64,
            ..m
        }),
        sum_recipient_parts(fees) + sum_owner_parts(fees) == sum_fees(fees),
        forall|i: int|
            0 <= i < fees.len() ==> owner_part(#[trigger] fees[i] as int) + recipient_part(
                fees[i] as int,
            ) == fees[i],
    decreases fees.len(),
{
    lemma_sums_nonnegative(fees);
    if fees.len() > 0 {
        let f = fees.last() as int;
        lemma_split_is_exact(f);
        lemma_sums_nonnegative(fees.drop_last());
        lemma_priority_sends_accumulate(c, m, recipient, fees.drop_last(), times.drop_last());
    }
}

/// The claim window opens at the first accrual into an empty record and stays
/// there through the sends that follow (for clock readings other than 0,
/// which the record uses to mean "no window").
pub proof fn lemma_window_opens_at_first_accrual(
    c: RecipientClaim,
    m: MailerState,
    recipient: Identity,
    fees: Seq<u64>,
    times: Seq<i64>,
)
    requires
        c.amount == 0,
        c.wf(),
        fees.len() == times.len(),
        times.len() > 0,
        fees[0] > 0,
        forall|i: int| 0 <= i < times.len() ==> #[trigger] times[i] != 0,
    ensures
        accrued_all(c, m, recipient, fees, times).0.timestamp == times[0],
    decreases fees.len(),
{
    assert(times[0] != 0);
    lemma_split_is_exact(fees[0] as int);
    if fees.len() > 1 {
        assert(fees.drop_last()[0] == fees[0]);
        lemma_window_opens_at_first_accrual(c, m, recipient, fees.drop_last(), times.drop_last());
        assert(times.drop_last()[0] == times[0]);
    } else {
        assert(accrued_all(c, m, recipient, fees.drop_last(), times.drop_last()) == (c, m));
    }
}

/// A second send into an open window leaves its start at the first paid
/// send: whether the holder may still claim depends on that first send's
/// time alone.
pub proof fn lemma_later_send_keeps_deadline(
    c: RecipientClaim,
    recipient: Identity,
    first_fee: u64,
    first_time: i64,
    later_fee: u64,
    later_time: i64,
    now: i64,
)
    requires
        c.amount == 0,
        c.wf(),
        first_fee > 0,
        first_time != 0,
    ensures
        ({
            let after = accrued(accrued(c, recipient, first_fee, first_time), recipient, later_fee, later_time);
            &&& after.timestamp == first_time
            &&& within_window(after, now) <==> now as int <= first_time as int + CLAIM_PERIOD as int
        }),
{
    lemma_split_is_exact(first_fee as int);
}

/// While a record holds a balance in an open window, further accruals leave
/// the window's start unchanged.
pub proof fn lemma_open_window_is_kept(
    c: RecipientClaim,
    m: MailerState,
    recipient: Identity,
    fees: Seq<u64>,
    times: Seq<i64>,
)
    requires
        c.amount > 0,
        c.timestamp != 0,
        fees.len() == times.len(),
    ensures
        accrued_all(c, m, recipient, fees, times).0.timestamp == c.timestamp,
    decreases fees.len(),
{
    if fees.len() > 0 {
        lemma_open_window_is_kept(c, m, recipient, fees.drop_last(), times.drop_last());
    }
}

/// For a record that holds a balance, at every instant exactly one of the
/// holder's claim and the operator's sweep is allowed, the last instant of the
/// window belonging to the claim; for an empty record neither is.
pub proof fn lemma_claim_and_sweep_exclusive(c: RecipientClaim, now: i64)
    ensures
        claimable_at(c, now) <==> (c.amount > 0 && now as int <= c.timestamp as int + 5_184_000),
        expirable_at(c, now) <==> (c.amount > 0 && now as int > c.timestamp as int + 5_184_000),
        c.amount > 0 ==> (claimable_at(c, now) <==> !expirable_at(c, now)),
        c.amount == 0 ==> !claimable_at(c, now) && !expirable_at(c, now),
{
}

/// A claim that was paid out or swept is empty with no window, and accrues
/// again from zero, its new window opening at the next send that pays in.
pub proof fn lemma_cleared_claim_restarts(
    c: RecipientClaim,
    recipient: Identity,
    total: u64,
    now: i64,
)
    ensures
        cleared(c).amount == 0,
        cleared(c).timestamp == 0,
        cleared(c).wf(),
        accrued(cleared(c), recipient, total, now).amount == recipient_part(total as int),
        total > 0 ==> accrued(cleared(c), recipient, total, now).timestamp == now,
        total == 0 ==> accrued(cleared(c), recipient, total, now).timestamp == 0,
{
    lemma_split_is_exact(total as int);
}

} // verus!
