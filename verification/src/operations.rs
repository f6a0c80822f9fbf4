//! The operations on an order. Each one first tests the caller and the
//! accounts against the record, then the order code, the status and the
//! amount; only an accepted call changes the record and requests custody
//! steps. A call that names another order code than the record's is refused
//! with `ArgumentInvariantViolation`, never passed over in silence.
//!
//! The time is an argument: the host reads its clock and hands `now` in.

use vstd::prelude::*;
use crate::accounts::{
    Adjudge, AdjudgeForBuyer, AdjudgeForSeller, AdjudgePartial, Cancel, CancelPartial, ChargeMore,
    Delivered, Exchange, Initialize, Refund, RefundPartial, Shipping, UpdateTrialDay,
};
use crate::authority::{
    check_vault, check_vault_at, check_vault_authority, derive_authority, derived, is_vault_at,
    is_vault_of, vault_signer, Authority,
};
use crate::custody::{
    deposit, deposit_requests, release, release_requests, settlement, settlement_requests,
    Context, CustodyRequest,
};
use crate::identity::Identity;
use crate::record::{
    ErrorCode, EscrowAccount, STATUS_DELIVERED, STATUS_NEW, STATUS_SHIPPING,
};

verus! {

/// Why `initialize_with` refuses the call, or `None` where it accepts it.
/// `vault_ok` says whether the vault stands at the address derived for the
/// order with the bump seed that the caller names, `authority` is the
/// authority derived for the order, if there is one.
pub open spec fn initialize_rejection_with(
    ctx: Context<Initialize>,
    amount: u64,
    vault_ok: bool,
    authority: Option<Authority>,
) -> Option<ErrorCode> {
    if !ctx.accounts.authorized() {
        Some(ErrorCode::AuthorizationFailure)
    } else if amount == 0 {
        Some(ErrorCode::ArgumentInvariantViolation)
    } else if ctx.accounts.buyer_deposit_token_account.amount < amount {
        Some(ErrorCode::InsufficientFunds)
    } else if !vault_ok {
        Some(ErrorCode::AuthorizationFailure)
    } else if authority is None {
        Some(ErrorCode::AuthorizationFailure)
    } else {
        None
    }
}

/// Why `initialize` refuses the call, or `None` where it accepts it: as
/// `initialize_rejection_with` says of what is derived for the order.
pub open spec fn initialize_rejection(
    ctx: Context<Initialize>,
    vault_account_bump: u8,
    amount: u64,
    order_code: u64,
) -> Option<ErrorCode> {
    if !ctx.accounts.authorized() {
        Some(ErrorCode::AuthorizationFailure)
    } else if amount == 0 {
        Some(ErrorCode::ArgumentInvariantViolation)
    } else if ctx.accounts.buyer_deposit_token_account.amount < amount {
        Some(ErrorCode::InsufficientFunds)
    } else if !is_vault_at(
        ctx.accounts.vault_account.key,
        vault_account_bump,
        order_code,
        ctx.program_id,
    ) {
        Some(ErrorCode::AuthorizationFailure)
    } else if derived(order_code, ctx.program_id) is None {
        Some(ErrorCode::AuthorizationFailure)
    } else {
        None
    }
}

/// The record of a new order.
pub open spec fn initialize_record(
    ctx: Context<Initialize>,
    amount: u64,
    order_code: u64,
    trial_day: u16,
    now: i64,
) -> EscrowAccount {
    EscrowAccount {
        buyer_key: ctx.accounts.buyer.key,
        buyer_deposit_token_account: ctx.accounts.buyer_deposit_token_account.key,
        seller_key: ctx.accounts.seller.key,
        seller_receive_token_account: ctx.accounts.seller_receive_token_account.key,
        judge_key: ctx.accounts.judge.key,
        amount,
        order_code,
        status: STATUS_NEW,
        delivery_time: now,
        trial_day,
    }
}

/// The requests of an accepted `initialize_with`: the vault is handed to
/// `authority`, then `amount` goes from the buyer's token account to the
/// vault.
pub open spec fn initialize_requests_with(
    ctx: Context<Initialize>,
    amount: u64,
    authority: Identity,
) -> Seq<CustodyRequest> {
    seq![
        CustodyRequest::SetAuthority {
            accounts: ctx.accounts.set_authority(),
            new_authority: authority,
        },
        CustodyRequest::Transfer {
            accounts: ctx.accounts.transfer_to_pda(),
            amount,
            signer_bump: None,
        },
    ]
}

/// `requests` are those of an accepted `initialize`: the vault is handed to
/// the authority derived for the order, then `amount` goes from the buyer's
/// token account to the vault.
pub open spec fn initialize_requests(
    requests: Seq<CustodyRequest>,
    ctx: Context<Initialize>,
    amount: u64,
    order_code: u64,
) -> bool {
    &&& requests.len() == 2
    &&& requests[0] matches CustodyRequest::SetAuthority { accounts, new_authority }
    &&& accounts == ctx.accounts.set_authority()
    &&& Some(new_authority@) == match derived(order_code, ctx.program_id) {
        Some((key, _)) => Some(key),
        None => None,
    }
    &&& requests[1] == (CustodyRequest::Transfer {
        accounts: ctx.accounts.transfer_to_pda(),
        amount,
        signer_bump: None,
    })
}

/// Decides `initialize` from what was derived for the order: `vault_ok` says
/// whether the vault stands at the derived address with the bump seed that
/// the caller names, `authority` is the derived authority, if there is one.
///
/// A refused call leaves the record as it was and requests nothing.
pub fn initialize_with(
    ctx: &mut Context<Initialize>,
    amount: u64,
    order_code: u64,
    trial_day: u16,
    now: i64,
    vault_ok: bool,
    authority: Option<Authority>,
) -> (r: Result<Vec<CustodyRequest>, ErrorCode>)
    ensures
        final(ctx).program_id == old(ctx).program_id,
        match initialize_rejection_with(*old(ctx), amount, vault_ok, authority) {
            Some(e) => r == Err::<Vec<CustodyRequest>, ErrorCode>(e) && *final(ctx) == *old(ctx),
            None => r is Ok && r.unwrap()@ == initialize_requests_with(
                *old(ctx),
                amount,
                authority.unwrap().key,
            ) && final(ctx).accounts == (Initialize {
                escrow_account: initialize_record(*old(ctx), amount, order_code, trial_day, now),
                ..old(ctx).accounts
            }),
        },
        r is Err ==> *final(ctx) == *old(ctx),
        r is Ok ==> {
            &&& old(ctx).accounts.buyer.is_signer
            &&& 0 < amount <= old(ctx).accounts.buyer_deposit_token_account.amount
            &&& final(ctx).accounts.escrow_account.wf()
        },
{
    if !ctx.accounts.is_authorized() {
        return Err(ErrorCode::AuthorizationFailure);
    }
    if amount == 0 {
        return Err(ErrorCode::ArgumentInvariantViolation);
    }
    if ctx.accounts.buyer_deposit_token_account.amount < amount {
        return Err(ErrorCode::InsufficientFunds);
    }
    if !vault_ok {
        return Err(ErrorCode::AuthorizationFailure);
    }
    let authority = match authority {
        Some(authority) => authority,
        None => {
            return Err(ErrorCode::AuthorizationFailure);
        },
    };
    ctx.accounts.escrow_account.buyer_key = ctx.accounts.buyer.key;
    ctx.accounts.escrow_account.buyer_deposit_token_account =
        ctx.accounts.buyer_deposit_token_account.key;
    ctx.accounts.escrow_account.seller_key = ctx.accounts.seller.key;
    ctx.accounts.escrow_account.seller_receive_token_account =
        ctx.accounts.seller_receive_token_account.key;
    ctx.accounts.escrow_account.judge_key = ctx.accounts.judge.key;
    ctx.accounts.escrow_account.amount = amount;
    ctx.accounts.escrow_account.order_code = order_code;
    ctx.accounts.escrow_account.status = STATUS_NEW;
    ctx.accounts.escrow_account.delivery_time = now;
    ctx.accounts.escrow_account.trial_day = trial_day;

    let mut requests: Vec<CustodyRequest> = Vec::new();
    requests.push(
        CustodyRequest::SetAuthority {
            accounts: ctx.accounts.into_set_authority_context(),
            new_authority: authority.key,
        },
    );
    requests.push(
        CustodyRequest::Transfer {
            accounts: ctx.accounts.into_transfer_to_pda_context(),
            amount: ctx.accounts.escrow_account.amount,
            signer_bump: None,
        },
    );
    assert(requests@ =~= initialize_requests_with(*old(ctx), amount, authority.key));
    Ok(requests)
}

/// Opens the order `order_code` at `now`: fills the record, hands the vault
/// to the authority derived for the order, and moves `amount` from the buyer
/// into the vault. The vault must stand at the address derived for the
/// order, and `vault_account_bump` must be the bump seed of that address.
///
/// A refused call leaves the record as it was and requests nothing.
pub fn initialize(
    ctx: &mut Context<Initialize>,
    vault_account_bump: u8,
    amount: u64,
    order_code: u64,
    trial_day: u16,
    now: i64,
) -> (r: Result<Vec<CustodyRequest>, ErrorCode>)
    ensures
        final(ctx).program_id == old(ctx).program_id,
        match initialize_rejection(*old(ctx), vault_account_bump, amount, order_code) {
            Some(e) => r == Err::<Vec<CustodyRequest>, ErrorCode>(e) && *final(ctx) == *old(ctx),
            None => r is Ok && initialize_requests(r.unwrap()@, *old(ctx), amount, order_code)
                && final(ctx).accounts == (Initialize {
                escrow_account: initialize_record(*old(ctx), amount, order_code, trial_day, now),
                ..old(ctx).accounts
            }),
        },
        r is Err ==> *final(ctx) == *old(ctx),
        r is Ok ==> {
            &&& old(ctx).accounts.buyer.is_signer
            &&& 0 < amount <= old(ctx).accounts.buyer_deposit_token_account.amount
            &&& final(ctx).accounts.escrow_account.wf()
        },
{
    let vault_ok = check_vault_at(
        order_code,
        &ctx.program_id,
        &ctx.accounts.vault_account.key,
        vault_account_bump,
    );
    let authority = derive_authority(order_code, &ctx.program_id);
    initialize_with(ctx, amount, order_code, trial_day, now, vault_ok, authority)
}

/// The record after the judge set its status to `status` at `now`.
pub open spec fn adjudged(e: EscrowAccount, status: u8, now: i64) -> EscrowAccount {
    if status == STATUS_DELIVERED {
        EscrowAccount { status, delivery_time: now, ..e }
    } else {
        EscrowAccount { status, ..e }
    }
}


/// Why `cancel_with` refuses the call, or `None` where it accepts it.
/// `vault_ok` says whether the vault stands at the address derived for the
/// order, `bump` is the bump seed of the derived authority where
/// `vault_authority` is that authority.
pub open spec fn cancel_rejection_with(
    ctx: Context<Cancel>,
    order_code: u64,
    vault_ok: bool,
    bump: Option<u8>,
) -> Option<ErrorCode> {
    if !ctx.accounts.authorized() {
        Some(ErrorCode::AuthorizationFailure)
    } else if ctx.accounts.escrow_account.order_code != order_code {
        Some(ErrorCode::ArgumentInvariantViolation)
    } else if ctx.accounts.escrow_account.status != STATUS_NEW {
        Some(ErrorCode::InvalidStateForOperation)
    } else if !vault_ok {
        Some(ErrorCode::AuthorizationFailure)
    } else if bump is None {
        Some(ErrorCode::AuthorizationFailure)
    } else {
        None
    }
}

/// Why `cancel` refuses the call, or `None` where it accepts it: as
/// `cancel_rejection_with` says of what is derived for the order.
pub open spec fn cancel_rejection(ctx: Context<Cancel>, order_code: u64) -> Option<ErrorCode> {
    cancel_rejection_with(
        ctx,
        order_code,
        is_vault_of(ctx.accounts.vault_account.key, order_code, ctx.program_id),
        vault_signer(order_code, ctx.program_id, ctx.accounts.vault_authority.key),
    )
}

/// The requests of an accepted `cancel`: the whole amount goes from the vault
/// to the buyer's token account, then the vault and the record are closed,
/// signed by the derived authority with `bump`.
pub open spec fn cancel_requests_with(
    ctx: Context<Cancel>,
    order_code: u64,
    bump: u8,
) -> Seq<CustodyRequest> {
    settlement_requests(
        ctx.accounts.transfer_to_buyer(),
        ctx.accounts.close_vault(),
        ctx.accounts.escrow_account.amount,
        bump,
    )
}

/// The requests of an accepted `cancel`: those of `cancel_requests_with` for
/// the bump seed of the authority derived for the order.
pub open spec fn cancel_requests(ctx: Context<Cancel>, order_code: u64) -> Seq<CustodyRequest> {
    cancel_requests_with(
        ctx,
        order_code,
        vault_signer(order_code, ctx.program_id, ctx.accounts.vault_authority.key).unwrap(),
    )
}

/// Decides `cancel` from what was derived for the order: `vault_ok` says
/// whether the vault stands at the derived address, `bump` is the bump seed
/// of the derived authority where `vault_authority` is that authority.
///
/// A refused call leaves the record as it was and requests nothing.
pub fn cancel_with(
    ctx: &mut Context<Cancel>,
    order_code: u64,
    vault_ok: bool,
    bump: Option<u8>,
) -> (r: Result<Vec<CustodyRequest>, ErrorCode>)
    ensures
        final(ctx).program_id == old(ctx).program_id,
        match cancel_rejection_with(*old(ctx), order_code, vault_ok, bump) {
            Some(e) => r == Err::<Vec<CustodyRequest>, ErrorCode>(e) && *final(ctx) == *old(ctx),
            None => r is Ok && r.unwrap()@ == cancel_requests_with(*old(ctx), order_code, bump.unwrap())
                && *final(ctx) == *old(ctx),
        },
        r is Err ==> *final(ctx) == *old(ctx),
        r is Ok ==> {
            &&& old(ctx).accounts.buyer.is_signer
            &&& old(ctx).accounts.escrow_account.buyer_key == old(ctx).accounts.buyer.key
            &&& old(ctx).accounts.escrow_account.order_code == order_code
            &&& old(ctx).accounts.escrow_account.status == STATUS_NEW
        },
{
    if !ctx.accounts.is_authorized() {
        return Err(ErrorCode::AuthorizationFailure);
    }
    if ctx.accounts.escrow_account.order_code != order_code {
        return Err(ErrorCode::ArgumentInvariantViolation);
    }
    if ctx.accounts.escrow_account.status != STATUS_NEW {
        return Err(ErrorCode::InvalidStateForOperation);
    }
    if !vault_ok {
        return Err(ErrorCode::AuthorizationFailure);
    }
    let bump: u8 = match bump {
        Some(bump) => bump,
        None => {
            return Err(ErrorCode::AuthorizationFailure);
        },
    };
    let requests = settlement(
        ctx.accounts.into_transfer_to_buyer_context(),
        ctx.accounts.into_close_contest(),
        ctx.accounts.escrow_account.amount,
        bump,
    );
    Ok(requests)
}

/// Returns the whole amount of a new order to the buyer and closes the vault
/// and the record.
///
/// A refused call leaves the record as it was and requests nothing.
pub fn cancel(
    ctx: &mut Context<Cancel>,
    order_code: u64,
) -> (r: Result<Vec<CustodyRequest>, ErrorCode>)
    ensures
        final(ctx).program_id == old(ctx).program_id,
        match cancel_rejection(*old(ctx), order_code) {
            Some(e) => r == Err::<Vec<CustodyRequest>, ErrorCode>(e) && *final(ctx) == *old(ctx),
            None => r is Ok && r.unwrap()@ == cancel_requests(*old(ctx), order_code)
                && *final(ctx) == *old(ctx),
        },
        r is Err ==> *final(ctx) == *old(ctx),
        r is Ok ==> {
            &&& old(ctx).accounts.buyer.is_signer
            &&& old(ctx).accounts.escrow_account.buyer_key == old(ctx).accounts.buyer.key
            &&& old(ctx).accounts.escrow_account.order_code == order_code
            &&& old(ctx).accounts.escrow_account.status == STATUS_NEW
        },
{
    let vault_ok = check_vault(order_code, &ctx.program_id, &ctx.accounts.vault_account.key);
    let bump = check_vault_authority(
        order_code,
        &ctx.program_id,
        &ctx.accounts.vault_authority.key,
    );
    cancel_with(ctx, order_code, vault_ok, bump)
}

/// Why `cancel_partial_with` refuses the call, or `None` where it accepts it.
/// `vault_ok` says whether the vault stands at the address derived for the
/// order, `bump` is the bump seed of the derived authority where
/// `vault_authority` is that authority.
pub open spec fn cancel_partial_rejection_with(
    ctx: Context<CancelPartial>,
    order_code: u64,
    amount: u64,
    vault_ok: bool,
    bump: Option<u8>,
) -> Option<ErrorCode> {
    if !ctx.accounts.authorized() {
        Some(ErrorCode::AuthorizationFailure)
    } else if ctx.accounts.escrow_account.order_code != order_code {
        Some(ErrorCode::ArgumentInvariantViolation)
    } else if ctx.accounts.escrow_account.status != STATUS_NEW {
        Some(ErrorCode::InvalidStateForOperation)
    } else if amount == 0 || amount >= ctx.accounts.escrow_account.amount {
        Some(ErrorCode::ArgumentInvariantViolation)
    } else if !vault_ok {
        Some(ErrorCode::AuthorizationFailure)
    } else if bump is None {
        Some(ErrorCode::AuthorizationFailure)
    } else {
        None
    }
}

/// Why `cancel_partial` refuses the call, or `None` where it accepts it: as
/// `cancel_partial_rejection_with` says of what is derived for the order.
pub open spec fn cancel_partial_rejection(
    ctx: Context<CancelPartial>,
    order_code: u64,
    amount: u64,
) -> Option<ErrorCode> {
    cancel_partial_rejection_with(
        ctx,
        order_code,
        amount,
        is_vault_of(ctx.accounts.vault_account.key, order_code, ctx.program_id),
        vault_signer(order_code, ctx.program_id, ctx.accounts.vault_authority.key),
    )
}

/// The record after an accepted `cancel_partial`: it holds `amount` less.
pub open spec fn cancel_partial_record(
    ctx: Context<CancelPartial>,
    order_code: u64,
    amount: u64,
) -> EscrowAccount {
    EscrowAccount {
        amount: (ctx.accounts.escrow_account.amount - amount) as u64,
        ..ctx.accounts.escrow_account
    }
}

/// The requests of an accepted `cancel_partial`: `amount` goes from the vault to the
/// buyer's token account, signed by the derived authority with `bump`.
pub open spec fn cancel_partial_requests_with(
    ctx: Context<CancelPartial>,
    order_code: u64,
    amount: u64,
    bump: u8,
) -> Seq<CustodyRequest> {
    release_requests(ctx.accounts.transfer_to_buyer(), amount, bump)
}

/// The requests of an accepted `cancel_partial`: those of `cancel_partial_requests_with` for
/// the bump seed of the authority derived for the order.
pub open spec fn cancel_partial_requests(
    ctx: Context<CancelPartial>,
    order_code: u64,
    amount: u64,
) -> Seq<CustodyRequest> {
    cancel_partial_requests_with(
        ctx,
        order_code,
        amount,
        vault_signer(order_code, ctx.program_id, ctx.accounts.vault_authority.key).unwrap(),
    )
}

/// Decides `cancel_partial` from what was derived for the order: `vault_ok` says
/// whether the vault stands at the derived address, `bump` is the bump seed
/// of the derived authority where `vault_authority` is that authority.
///
/// A refused call leaves the record as it was and requests nothing.
pub fn cancel_partial_with(
    ctx: &mut Context<CancelPartial>,
    order_code: u64,
    amount: u64,
    vault_ok: bool,
    bump: Option<u8>,
) -> (r: Result<Vec<CustodyRequest>, ErrorCode>)
    ensures
        final(ctx).program_id == old(ctx).program_id,
        match cancel_partial_rejection_with(*old(ctx), order_code, amount, vault_ok, bump) {
            Some(e) => r == Err::<Vec<CustodyRequest>, ErrorCode>(e) && *final(ctx) == *old(ctx),
            None => r is Ok && r.unwrap()@ == cancel_partial_requests_with(*old(ctx), order_code, amount, bump.unwrap())
                && final(ctx).accounts == (CancelPartial {
                escrow_account: cancel_partial_record(*old(ctx), order_code, amount),
                ..old(ctx).accounts
            }),
        },
        old(ctx).accounts.escrow_account.wf() ==> final(ctx).accounts.escrow_account.wf(),
        r is Err ==> *final(ctx) == *old(ctx),
        r is Ok ==> {
            &&& old(ctx).accounts.buyer.is_signer
            &&& old(ctx).accounts.escrow_account.buyer_key == old(ctx).accounts.buyer.key
            &&& old(ctx).accounts.escrow_account.order_code == order_code
            &&& old(ctx).accounts.escrow_account.status == STATUS_NEW
            &&& 0 < amount < old(ctx).accounts.escrow_account.amount
            &&& final(ctx).accounts.escrow_account.amount == old(ctx).accounts.escrow_account.amount - amount
        },
{
    if !ctx.accounts.is_authorized() {
        return Err(ErrorCode::AuthorizationFailure);
    }
    if ctx.accounts.escrow_account.order_code != order_code {
        return Err(ErrorCode::ArgumentInvariantViolation);
    }
    if ctx.accounts.escrow_account.status != STATUS_NEW {
        return Err(ErrorCode::InvalidStateForOperation);
    }
    if amount == 0 || amount >= ctx.accounts.escrow_account.amount {
        return Err(ErrorCode::ArgumentInvariantViolation);
    }
    if !vault_ok {
        return Err(ErrorCode::AuthorizationFailure);
    }
    let bump: u8 = match bump {
        Some(bump) => bump,
        None => {
            return Err(ErrorCode::AuthorizationFailure);
        },
    };
    let requests = release(ctx.accounts.into_transfer_to_buyer_context(), amount, bump);
    ctx.accounts.escrow_account.amount = ctx.accounts.escrow_account.amount - amount;
    Ok(requests)
}

/// Returns `amount` of a new order to the buyer. The amount must be positive and
/// leave something in the vault.
///
/// A refused call leaves the record as it was and requests nothing.
pub fn cancel_partial(
    ctx: &mut Context<CancelPartial>,
    order_code: u64,
    amount: u64,
) -> (r: Result<Vec<CustodyRequest>, ErrorCode>)
    ensures
        final(ctx).program_id == old(ctx).program_id,
        match cancel_partial_rejection(*old(ctx), order_code, amount) {
            Some(e) => r == Err::<Vec<CustodyRequest>, ErrorCode>(e) && *final(ctx) == *old(ctx),
            None => r is Ok && r.unwrap()@ == cancel_partial_requests(*old(ctx), order_code, amount)
                && final(ctx).accounts == (CancelPartial {
                escrow_account: cancel_partial_record(*old(ctx), order_code, amount),
                ..old(ctx).accounts
            }),
        },
        old(ctx).accounts.escrow_account.wf() ==> final(ctx).accounts.escrow_account.wf(),
        r is Err ==> *final(ctx) == *old(ctx),
        r is Ok ==> {
            &&& old(ctx).accounts.buyer.is_signer
            &&& old(ctx).accounts.escrow_account.buyer_key == old(ctx).accounts.buyer.key
            &&& old(ctx).accounts.escrow_account.order_code == order_code
            &&& old(ctx).accounts.escrow_account.status == STATUS_NEW
            &&& 0 < amount < old(ctx).accounts.escrow_account.amount
            &&& final(ctx).accounts.escrow_account.amount == old(ctx).accounts.escrow_account.amount - amount
        },
{
    let vault_ok = check_vault(order_code, &ctx.program_id, &ctx.accounts.vault_account.key);
    let bump = check_vault_authority(
        order_code,
        &ctx.program_id,
        &ctx.accounts.vault_authority.key,
    );
    cancel_partial_with(ctx, order_code, amount, vault_ok, bump)
}

/// Why `charge_more_with` refuses the call, or `None` where it accepts it.
/// `vault_ok` says whether the vault stands at the address derived for the
/// order.
pub open spec fn charge_more_rejection_with(
    ctx: Context<ChargeMore>,
    order_code: u64,
    amount: u64,
    vault_ok: bool,
) -> Option<ErrorCode> {
    if !ctx.accounts.authorized() {
        Some(ErrorCode::AuthorizationFailure)
    } else if ctx.accounts.escrow_account.order_code != order_code {
        Some(ErrorCode::ArgumentInvariantViolation)
    } else if amount == 0 {
        Some(ErrorCode::ArgumentInvariantViolation)
    } else if ctx.accounts.buyer_deposit_token_account.amount < amount {
        Some(ErrorCode::InsufficientFunds)
    } else if ctx.accounts.escrow_account.amount + amount > u64::MAX {
        Some(ErrorCode::ArgumentInvariantViolation)
    } else if !vault_ok {
        Some(ErrorCode::AuthorizationFailure)
    } else {
        None
    }
}

/// Why `charge_more` refuses the call, or `None` where it accepts it: as
/// `charge_more_rejection_with` says of what is derived for the order.
pub open spec fn charge_more_rejection(
    ctx: Context<ChargeMore>,
    order_code: u64,
    amount: u64,
) -> Option<ErrorCode> {
    charge_more_rejection_with(
        ctx,
        order_code,
        amount,
        is_vault_of(ctx.accounts.vault_account.key, order_code, ctx.program_id),
    )
}

/// The record after an accepted `charge_more`: it holds `amount` more.
pub open spec fn charge_more_record(
    ctx: Context<ChargeMore>,
    order_code: u64,
    amount: u64,
) -> EscrowAccount {
    EscrowAccount {
        amount: (ctx.accounts.escrow_account.amount + amount) as u64,
        ..ctx.accounts.escrow_account
    }
}

/// The requests of an accepted `charge_more`: `amount` goes from the buyer's token
/// account to the vault.
pub open spec fn charge_more_requests(
    ctx: Context<ChargeMore>,
    order_code: u64,
    amount: u64,
) -> Seq<CustodyRequest> {
    deposit_requests(ctx.accounts.transfer_to_pda(), amount)
}

/// Decides `charge_more` from what was derived for the order: `vault_ok` says
/// whether the vault stands at the derived address.
///
/// A refused call leaves the record as it was and requests nothing.
pub fn charge_more_with(
    ctx: &mut Context<ChargeMore>,
    order_code: u64,
    amount: u64,
    vault_ok: bool,
) -> (r: Result<Vec<CustodyRequest>, ErrorCode>)
    ensures
        final(ctx).program_id == old(ctx).program_id,
        match charge_more_rejection_with(*old(ctx), order_code, amount, vault_ok) {
            Some(e) => r == Err::<Vec<CustodyRequest>, ErrorCode>(e) && *final(ctx) == *old(ctx),
            None => r is Ok && r.unwrap()@ == charge_more_requests(*old(ctx), order_code, amount)
                && final(ctx).accounts == (ChargeMore {
                escrow_account: charge_more_record(*old(ctx), order_code, amount),
                ..old(ctx).accounts
            }),
        },
        old(ctx).accounts.escrow_account.wf() ==> final(ctx).accounts.escrow_account.wf(),
        r is Err ==> *final(ctx) == *old(ctx),
        r is Ok ==> {
            &&& old(ctx).accounts.buyer.is_signer
            &&& old(ctx).accounts.escrow_account.buyer_key == old(ctx).accounts.buyer.key
            &&& old(ctx).accounts.escrow_account.order_code == order_code
            &&& 0 < amount <= old(ctx).accounts.buyer_deposit_token_account.amount
            &&& final(ctx).accounts.escrow_account.amount == old(ctx).accounts.escrow_account.amount + amount
        },
{
    if !ctx.accounts.is_authorized() {
        return Err(ErrorCode::AuthorizationFailure);
    }
    if ctx.accounts.escrow_account.order_code != order_code {
        return Err(ErrorCode::ArgumentInvariantViolation);
    }
    if amount == 0 {
        return Err(ErrorCode::ArgumentInvariantViolation);
    }
    if ctx.accounts.buyer_deposit_token_account.amount < amount {
        return Err(ErrorCode::InsufficientFunds);
    }
    if amount > u64::MAX - ctx.accounts.escrow_account.amount {
        return Err(ErrorCode::ArgumentInvariantViolation);
    }
    if !vault_ok {
        return Err(ErrorCode::AuthorizationFailure);
    }
    let requests = deposit(ctx.accounts.into_transfer_to_pda_context(), amount);
    ctx.accounts.escrow_account.amount = ctx.accounts.escrow_account.amount + amount;
    Ok(requests)
}

/// Moves `amount` more from the buyer into the vault.
///
/// A refused call leaves the record as it was and requests nothing.
pub fn charge_more(
    ctx: &mut Context<ChargeMore>,
    order_code: u64,
    amount: u64,
) -> (r: Result<Vec<CustodyRequest>, ErrorCode>)
    ensures
        final(ctx).program_id == old(ctx).program_id,
        match charge_more_rejection(*old(ctx), order_code, amount) {
            Some(e) => r == Err::<Vec<CustodyRequest>, ErrorCode>(e) && *final(ctx) == *old(ctx),
            None => r is Ok && r.unwrap()@ == charge_more_requests(*old(ctx), order_code, amount)
                && final(ctx).accounts == (ChargeMore {
                escrow_account: charge_more_record(*old(ctx), order_code, amount),
                ..old(ctx).accounts
            }),
        },
        old(ctx).accounts.escrow_account.wf() ==> final(ctx).accounts.escrow_account.wf(),
        r is Err ==> *final(ctx) == *old(ctx),
        r is Ok ==> {
            &&& old(ctx).accounts.buyer.is_signer
            &&& old(ctx).accounts.escrow_account.buyer_key == old(ctx).accounts.buyer.key
            &&& old(ctx).accounts.escrow_account.order_code == order_code
            &&& 0 < amount <= old(ctx).accounts.buyer_deposit_token_account.amount
            &&& final(ctx).accounts.escrow_account.amount == old(ctx).accounts.escrow_account.amount + amount
        },
{
    let vault_ok = check_vault(order_code, &ctx.program_id, &ctx.accounts.vault_account.key);
    charge_more_with(ctx, order_code, amount, vault_ok)
}

/// Why `shipping` refuses the call, or `None` where it accepts it.
pub open spec fn shipping_rejection(ctx: Context<Shipping>, order_code: u64) -> Option<ErrorCode> {
    if !ctx.accounts.authorized() {
        Some(ErrorCode::AuthorizationFailure)
    } else if ctx.accounts.escrow_account.order_code != order_code {
        Some(ErrorCode::ArgumentInvariantViolation)
    } else if ctx.accounts.escrow_account.status != STATUS_NEW {
        Some(ErrorCode::InvalidStateForOperation)
    } else {
        None
    }
}

/// The record after an accepted `shipping`.
pub open spec fn shipping_record(ctx: Context<Shipping>, order_code: u64) -> EscrowAccount {
    EscrowAccount { status: STATUS_SHIPPING, ..ctx.accounts.escrow_account }
}

/// The seller reports a new order shipped.
///
/// A refused call leaves the record as it was.
pub fn shipping(ctx: &mut Context<Shipping>, order_code: u64) -> (r: Result<(), ErrorCode>)
    ensures
        final(ctx).program_id == old(ctx).program_id,
        match shipping_rejection(*old(ctx), order_code) {
            Some(e) => r == Err::<(), ErrorCode>(e) && *final(ctx) == *old(ctx),
            None => r is Ok && final(ctx).accounts == (Shipping {
                escrow_account: shipping_record(*old(ctx), order_code),
                ..old(ctx).accounts
            }),
        },
        old(ctx).accounts.escrow_account.wf() ==> final(ctx).accounts.escrow_account.wf(),
        r is Err ==> *final(ctx) == *old(ctx),
        r is Ok ==> {
            &&& old(ctx).accounts.seller.is_signer
            &&& old(ctx).accounts.escrow_account.seller_key == old(ctx).accounts.seller.key
            &&& old(ctx).accounts.escrow_account.order_code == order_code
            &&& old(ctx).accounts.escrow_account.status == STATUS_NEW
            &&& final(ctx).accounts.escrow_account.status == STATUS_SHIPPING
        },
{
    if !ctx.accounts.is_authorized() {
        return Err(ErrorCode::AuthorizationFailure);
    }
    if ctx.accounts.escrow_account.order_code != order_code {
        return Err(ErrorCode::ArgumentInvariantViolation);
    }
    if ctx.accounts.escrow_account.status != STATUS_NEW {
        return Err(ErrorCode::InvalidStateForOperation);
    }
    ctx.accounts.escrow_account.status = STATUS_SHIPPING;
    Ok(())
}

/// Why `delivered` refuses the call, or `None` where it accepts it.
pub open spec fn delivered_rejection(
    ctx: Context<Delivered>,
    order_code: u64,
    now: i64,
) -> Option<ErrorCode> {
    if !ctx.accounts.authorized() {
        Some(ErrorCode::AuthorizationFailure)
    } else if ctx.accounts.escrow_account.order_code != order_code {
        Some(ErrorCode::ArgumentInvariantViolation)
    } else if ctx.accounts.escrow_account.status != STATUS_SHIPPING {
        Some(ErrorCode::InvalidStateForOperation)
    } else {
        None
    }
}

/// The record after an accepted `delivered`.
pub open spec fn delivered_record(
    ctx: Context<Delivered>,
    order_code: u64,
    now: i64,
) -> EscrowAccount {
    EscrowAccount { status: STATUS_DELIVERED, delivery_time: now, ..ctx.accounts.escrow_account }
}

/// The buyer reports a shipped order received at `now`; the trial period starts.
///
/// A refused call leaves the record as it was.
pub fn delivered(
    ctx: &mut Context<Delivered>,
    order_code: u64,
    now: i64,
) -> (r: Result<(), ErrorCode>)
    ensures
        final(ctx).program_id == old(ctx).program_id,
        match delivered_rejection(*old(ctx), order_code, now) {
            Some(e) => r == Err::<(), ErrorCode>(e) && *final(ctx) == *old(ctx),
            None => r is Ok && final(ctx).accounts == (Delivered {
                escrow_account: delivered_record(*old(ctx), order_code, now),
                ..old(ctx).accounts
            }),
        },
        old(ctx).accounts.escrow_account.wf() ==> final(ctx).accounts.escrow_account.wf(),
        r is Err ==> *final(ctx) == *old(ctx),
        r is Ok ==> {
            &&& old(ctx).accounts.buyer.is_signer
            &&& old(ctx).accounts.escrow_account.buyer_key == old(ctx).accounts.buyer.key
            &&& old(ctx).accounts.escrow_account.order_code == order_code
            &&& old(ctx).accounts.escrow_account.status == STATUS_SHIPPING
            &&& final(ctx).accounts.escrow_account.status == STATUS_DELIVERED
        },
{
    if !ctx.accounts.is_authorized() {
        return Err(ErrorCode::AuthorizationFailure);
    }
    if ctx.accounts.escrow_account.order_code != order_code {
        return Err(ErrorCode::ArgumentInvariantViolation);
    }
    if ctx.accounts.escrow_account.status != STATUS_SHIPPING {
        return Err(ErrorCode::InvalidStateForOperation);
    }
    ctx.accounts.escrow_account.status = STATUS_DELIVERED;
    ctx.accounts.escrow_account.delivery_time = now;
    Ok(())
}

/// Why `refund` refuses the call, or `None` where it accepts it.
pub open spec fn refund_rejection(ctx: Context<Refund>, order_code: u64) -> Option<ErrorCode> {
    if !ctx.accounts.authorized() {
        Some(ErrorCode::AuthorizationFailure)
    } else if ctx.accounts.escrow_account.order_code != order_code {
        Some(ErrorCode::ArgumentInvariantViolation)
    } else if ctx.accounts.escrow_account.status == STATUS_NEW {
        Some(ErrorCode::InvalidStateForOperation)
    } else {
        None
    }
}

/// The record after an accepted `refund`.
pub open spec fn refund_record(ctx: Context<Refund>, order_code: u64) -> EscrowAccount {
    EscrowAccount { status: STATUS_NEW, ..ctx.accounts.escrow_account }
}

/// The seller takes a shipped or delivered order back to new. No funds move.
///
/// A refused call leaves the record as it was.
pub fn refund(ctx: &mut Context<Refund>, order_code: u64) -> (r: Result<(), ErrorCode>)
    ensures
        final(ctx).program_id == old(ctx).program_id,
        match refund_rejection(*old(ctx), order_code) {
            Some(e) => r == Err::<(), ErrorCode>(e) && *final(ctx) == *old(ctx),
            None => r is Ok && final(ctx).accounts == (Refund {
                escrow_account: refund_record(*old(ctx), order_code),
                ..old(ctx).accounts
            }),
        },
        old(ctx).accounts.escrow_account.wf() ==> final(ctx).accounts.escrow_account.wf(),
        r is Err ==> *final(ctx) == *old(ctx),
        r is Ok ==> {
            &&& old(ctx).accounts.seller.is_signer
            &&& old(ctx).accounts.escrow_account.seller_key == old(ctx).accounts.seller.key
            &&& old(ctx).accounts.escrow_account.order_code == order_code
            &&& old(ctx).accounts.escrow_account.status > STATUS_NEW
            &&& final(ctx).accounts.escrow_account.status == STATUS_NEW
        },
{
    if !ctx.accounts.is_authorized() {
        return Err(ErrorCode::AuthorizationFailure);
    }
    if ctx.accounts.escrow_account.order_code != order_code {
        return Err(ErrorCode::ArgumentInvariantViolation);
    }
    if ctx.accounts.escrow_account.status == STATUS_NEW {
        return Err(ErrorCode::InvalidStateForOperation);
    }
    ctx.accounts.escrow_account.status = STATUS_NEW;
    Ok(())
}

/// Why `refund_partial_with` refuses the call, or `None` where it accepts it.
/// `vault_ok` says whether the vault stands at the address derived for the
/// order, `bump` is the bump seed of the derived authority where
/// `vault_authority` is that authority.
pub open spec fn refund_partial_rejection_with(
    ctx: Context<RefundPartial>,
    order_code: u64,
    amount: u64,
    vault_ok: bool,
    bump: Option<u8>,
) -> Option<ErrorCode> {
    if !ctx.accounts.authorized() {
        Some(ErrorCode::AuthorizationFailure)
    } else if ctx.accounts.escrow_account.order_code != order_code {
        Some(ErrorCode::ArgumentInvariantViolation)
    } else if ctx.accounts.escrow_account.status == STATUS_NEW {
        Some(ErrorCode::InvalidStateForOperation)
    } else if amount == 0 || amount >= ctx.accounts.escrow_account.amount {
        Some(ErrorCode::ArgumentInvariantViolation)
    } else if !vault_ok {
        Some(ErrorCode::AuthorizationFailure)
    } else if bump is None {
        Some(ErrorCode::AuthorizationFailure)
    } else {
        None
    }
}

/// Why `refund_partial` refuses the call, or `None` where it accepts it: as
/// `refund_partial_rejection_with` says of what is derived for the order.
pub open spec fn refund_partial_rejection(
    ctx: Context<RefundPartial>,
    order_code: u64,
    amount: u64,
) -> Option<ErrorCode> {
    refund_partial_rejection_with(
        ctx,
        order_code,
        amount,
        is_vault_of(ctx.accounts.vault_account.key, order_code, ctx.program_id),
        vault_signer(order_code, ctx.program_id, ctx.accounts.vault_authority.key),
    )
}

/// The record after an accepted `refund_partial`: it holds `amount` less.
pub open spec fn refund_partial_record(
    ctx: Context<RefundPartial>,
    order_code: u64,
    amount: u64,
) -> EscrowAccount {
    EscrowAccount {
        amount: (ctx.accounts.escrow_account.amount - amount) as u64,
        ..ctx.accounts.escrow_account
    }
}

/// The requests of an accepted `refund_partial`: `amount` goes from the vault to the
/// buyer's token account, signed by the derived authority with `bump`.
pub open spec fn refund_partial_requests_with(
    ctx: Context<RefundPartial>,
    order_code: u64,
    amount: u64,
    bump: u8,
) -> Seq<CustodyRequest> {
    release_requests(ctx.accounts.transfer_to_buyer(), amount, bump)
}

/// The requests of an accepted `refund_partial`: those of `refund_partial_requests_with` for
/// the bump seed of the authority derived for the order.
pub open spec fn refund_partial_requests(
    ctx: Context<RefundPartial>,
    order_code: u64,
    amount: u64,
) -> Seq<CustodyRequest> {
    refund_partial_requests_with(
        ctx,
        order_code,
        amount,
        vault_signer(order_code, ctx.program_id, ctx.accounts.vault_authority.key).unwrap(),
    )
}

/// Decides `refund_partial` from what was derived for the order: `vault_ok` says
/// whether the vault stands at the derived address, `bump` is the bump seed
/// of the derived authority where `vault_authority` is that authority.
///
/// A refused call leaves the record as it was and requests nothing.
pub fn refund_partial_with(
    ctx: &mut Context<RefundPartial>,
    order_code: u64,
    amount: u64,
    vault_ok: bool,
    bump: Option<u8>,
) -> (r: Result<Vec<CustodyRequest>, ErrorCode>)
    ensures
        final(ctx).program_id == old(ctx).program_id,
        match refund_partial_rejection_with(*old(ctx), order_code, amount, vault_ok, bump) {
            Some(e) => r == Err::<Vec<CustodyRequest>, ErrorCode>(e) && *final(ctx) == *old(ctx),
            None => r is Ok && r.unwrap()@ == refund_partial_requests_with(*old(ctx), order_code, amount, bump.unwrap())
                && final(ctx).accounts == (RefundPartial {
                escrow_account: refund_partial_record(*old(ctx), order_code, amount),
                ..old(ctx).accounts
            }),
        },
        old(ctx).accounts.escrow_account.wf() ==> final(ctx).accounts.escrow_account.wf(),
        r is Err ==> *final(ctx) == *old(ctx),
        r is Ok ==> {
            &&& old(ctx).accounts.seller.is_signer
            &&& old(ctx).accounts.escrow_account.seller_key == old(ctx).accounts.seller.key
            &&& old(ctx).accounts.escrow_account.order_code == order_code
            &&& old(ctx).accounts.escrow_account.status > STATUS_NEW
            &&& 0 < amount < old(ctx).accounts.escrow_account.amount
            &&& final(ctx).accounts.escrow_account.amount == old(ctx).accounts.escrow_account.amount - amount
        },
{
    if !ctx.accounts.is_authorized() {
        return Err(ErrorCode::AuthorizationFailure);
    }
    if ctx.accounts.escrow_account.order_code != order_code {
        return Err(ErrorCode::ArgumentInvariantViolation);
    }
    if ctx.accounts.escrow_account.status == STATUS_NEW {
        return Err(ErrorCode::InvalidStateForOperation);
    }
    if amount == 0 || amount >= ctx.accounts.escrow_account.amount {
        return Err(ErrorCode::ArgumentInvariantViolation);
    }
    if !vault_ok {
        return Err(ErrorCode::AuthorizationFailure);
    }
    let bump: u8 = match bump {
        Some(bump) => bump,
        None => {
            return Err(ErrorCode::AuthorizationFailure);
        },
    };
    let requests = release(ctx.accounts.into_transfer_to_buyer_context(), amount, bump);
    ctx.accounts.escrow_account.amount = ctx.accounts.escrow_account.amount - amount;
    Ok(requests)
}

/// The seller returns `amount` of a shipped or delivered order to the buyer. The
/// amount must be positive and leave something in the vault.
///
/// A refused call leaves the record as it was and requests nothing.
pub fn refund_partial(
    ctx: &mut Context<RefundPartial>,
    order_code: u64,
    amount: u64,
) -> (r: Result<Vec<CustodyRequest>, ErrorCode>)
    ensures
        final(ctx).program_id == old(ctx).program_id,
        match refund_partial_rejection(*old(ctx), order_code, amount) {
            Some(e) => r == Err::<Vec<CustodyRequest>, ErrorCode>(e) && *final(ctx) == *old(ctx),
            None => r is Ok && r.unwrap()@ == refund_partial_requests(*old(ctx), order_code, amount)
                && final(ctx).accounts == (RefundPartial {
                escrow_account: refund_partial_record(*old(ctx), order_code, amount),
                ..old(ctx).accounts
            }),
        },
        old(ctx).accounts.escrow_account.wf() ==> final(ctx).accounts.escrow_account.wf(),
        r is Err ==> *final(ctx) == *old(ctx),
        r is Ok ==> {
            &&& old(ctx).accounts.seller.is_signer
            &&& old(ctx).accounts.escrow_account.seller_key == old(ctx).accounts.seller.key
            &&& old(ctx).accounts.escrow_account.order_code == order_code
            &&& old(ctx).accounts.escrow_account.status > STATUS_NEW
            &&& 0 < amount < old(ctx).accounts.escrow_account.amount
            &&& final(ctx).accounts.escrow_account.amount == old(ctx).accounts.escrow_account.amount - amount
        },
{
    let vault_ok = check_vault(order_code, &ctx.program_id, &ctx.accounts.vault_account.key);
    let bump = check_vault_authority(
        order_code,
        &ctx.program_id,
        &ctx.accounts.vault_authority.key,
    );
    refund_partial_with(ctx, order_code, amount, vault_ok, bump)
}

/// Why `exchange_with` refuses the call, or `None` where it accepts it.
/// `vault_ok` says whether the vault stands at the address derived for the
/// order, `bump` is the bump seed of the derived authority where
/// `vault_authority` is that authority.
pub open spec fn exchange_rejection_with(
    ctx: Context<Exchange>,
    now: i64,
    vault_ok: bool,
    bump: Option<u8>,
) -> Option<ErrorCode> {
    if !ctx.accounts.authorized() {
        Some(ErrorCode::AuthorizationFailure)
    } else if ctx.accounts.escrow_account.status != STATUS_DELIVERED {
        Some(ErrorCode::InvalidStateForOperation)
    } else if now < ctx.accounts.escrow_account.trial_end() {
        Some(ErrorCode::InTrialDay)
    } else if !vault_ok {
        Some(ErrorCode::AuthorizationFailure)
    } else if bump is None {
        Some(ErrorCode::AuthorizationFailure)
    } else {
        None
    }
}

/// Why `exchange` refuses the call, or `None` where it accepts it: as
/// `exchange_rejection_with` says of what is derived for the order.
pub open spec fn exchange_rejection(ctx: Context<Exchange>, now: i64) -> Option<ErrorCode> {
    exchange_rejection_with(
        ctx,
        now,
        is_vault_of(ctx.accounts.vault_account.key, ctx.accounts.escrow_account.order_code, ctx.program_id),
        vault_signer(ctx.accounts.escrow_account.order_code, ctx.program_id, ctx.accounts.vault_authority.key),
    )
}

/// The requests of an accepted `exchange`: the whole amount goes from the vault
/// to the seller's token account, then the vault and the record are closed,
/// signed by the derived authority with `bump`.
pub open spec fn exchange_requests_with(
    ctx: Context<Exchange>,
    now: i64,
    bump: u8,
) -> Seq<CustodyRequest> {
    settlement_requests(
        ctx.accounts.transfer_to_seller(),
        ctx.accounts.close_vault(),
        ctx.accounts.escrow_account.amount,
        bump,
    )
}

/// The requests of an accepted `exchange`: those of `exchange_requests_with` for
/// the bump seed of the authority derived for the order.
pub open spec fn exchange_requests(ctx: Context<Exchange>, now: i64) -> Seq<CustodyRequest> {
    exchange_requests_with(
        ctx,
        now,
        vault_signer(ctx.accounts.escrow_account.order_code, ctx.program_id, ctx.accounts.vault_authority.key).unwrap(),
    )
}

/// Decides `exchange` from what was derived for the order: `vault_ok` says
/// whether the vault stands at the derived address, `bump` is the bump seed
/// of the derived authority where `vault_authority` is that authority.
///
/// A refused call leaves the record as it was and requests nothing.
pub fn exchange_with(
    ctx: &mut Context<Exchange>,
    now: i64,
    vault_ok: bool,
    bump: Option<u8>,
) -> (r: Result<Vec<CustodyRequest>, ErrorCode>)
    ensures
        final(ctx).program_id == old(ctx).program_id,
        match exchange_rejection_with(*old(ctx), now, vault_ok, bump) {
            Some(e) => r == Err::<Vec<CustodyRequest>, ErrorCode>(e) && *final(ctx) == *old(ctx),
            None => r is Ok && r.unwrap()@ == exchange_requests_with(*old(ctx), now, bump.unwrap())
                && *final(ctx) == *old(ctx),
        },
        r is Err ==> *final(ctx) == *old(ctx),
        r is Ok ==> {
            &&& old(ctx).accounts.seller.is_signer
            &&& old(ctx).accounts.escrow_account.seller_key == old(ctx).accounts.seller.key
            &&& old(ctx).accounts.escrow_account.status == STATUS_DELIVERED
            &&& now >= old(ctx).accounts.escrow_account.trial_end()
        },
{
    if !ctx.accounts.is_authorized() {
        return Err(ErrorCode::AuthorizationFailure);
    }
    if ctx.accounts.escrow_account.status != STATUS_DELIVERED {
        return Err(ErrorCode::InvalidStateForOperation);
    }
    if ctx.accounts.escrow_account.in_trial(now) {
        return Err(ErrorCode::InTrialDay);
    }
    if !vault_ok {
        return Err(ErrorCode::AuthorizationFailure);
    }
    let bump: u8 = match bump {
        Some(bump) => bump,
        None => {
            return Err(ErrorCode::AuthorizationFailure);
        },
    };
    let requests = settlement(
        ctx.accounts.into_transfer_to_seller_context(),
        ctx.accounts.into_close_context(),
        ctx.accounts.escrow_account.amount,
        bump,
    );
    Ok(requests)
}

/// Pays the whole amount of a delivered order to the seller once the trial
/// period is over at `now`, and closes the vault and the record.
///
/// A refused call leaves the record as it was and requests nothing.
pub fn exchange(
    ctx: &mut Context<Exchange>,
    now: i64,
) -> (r: Result<Vec<CustodyRequest>, ErrorCode>)
    ensures
        final(ctx).program_id == old(ctx).program_id,
        match exchange_rejection(*old(ctx), now) {
            Some(e) => r == Err::<Vec<CustodyRequest>, ErrorCode>(e) && *final(ctx) == *old(ctx),
            None => r is Ok && r.unwrap()@ == exchange_requests(*old(ctx), now)
                && *final(ctx) == *old(ctx),
        },
        r is Err ==> *final(ctx) == *old(ctx),
        r is Ok ==> {
            &&& old(ctx).accounts.seller.is_signer
            &&& old(ctx).accounts.escrow_account.seller_key == old(ctx).accounts.seller.key
            &&& old(ctx).accounts.escrow_account.status == STATUS_DELIVERED
            &&& now >= old(ctx).accounts.escrow_account.trial_end()
        },
{
    let order_code: u64 = ctx.accounts.escrow_account.order_code;
    let vault_ok = check_vault(order_code, &ctx.program_id, &ctx.accounts.vault_account.key);
    let bump = check_vault_authority(
        order_code,
        &ctx.program_id,
        &ctx.accounts.vault_authority.key,
    );
    exchange_with(ctx, now, vault_ok, bump)
}

/// Why `adjudge` refuses the call, or `None` where it accepts it.
pub open spec fn adjudge_rejection(
    ctx: Context<Adjudge>,
    order_code: u64,
    status: u8,
    now: i64,
) -> Option<ErrorCode> {
    if !ctx.accounts.authorized() {
        Some(ErrorCode::AuthorizationFailure)
    } else if ctx.accounts.escrow_account.order_code != order_code {
        Some(ErrorCode::ArgumentInvariantViolation)
    } else if status > STATUS_DELIVERED {
        Some(ErrorCode::ArgumentInvariantViolation)
    } else {
        None
    }
}

/// The record after an accepted `adjudge`.
pub open spec fn adjudge_record(
    ctx: Context<Adjudge>,
    order_code: u64,
    status: u8,
    now: i64,
) -> EscrowAccount {
    adjudged(ctx.accounts.escrow_account, status, now)
}

/// The judge sets the status of the order to one of the three. Setting it to
/// delivered restarts the trial period at `now`.
///
/// A refused call leaves the record as it was.
pub fn adjudge(
    ctx: &mut Context<Adjudge>,
    order_code: u64,
    status: u8,
    now: i64,
) -> (r: Result<(), ErrorCode>)
    ensures
        final(ctx).program_id == old(ctx).program_id,
        match adjudge_rejection(*old(ctx), order_code, status, now) {
            Some(e) => r == Err::<(), ErrorCode>(e) && *final(ctx) == *old(ctx),
            None => r is Ok && final(ctx).accounts == (Adjudge {
                escrow_account: adjudge_record(*old(ctx), order_code, status, now),
                ..old(ctx).accounts
            }),
        },
        old(ctx).accounts.escrow_account.wf() ==> final(ctx).accounts.escrow_account.wf(),
        r is Err ==> *final(ctx) == *old(ctx),
        r is Ok ==> {
            &&& old(ctx).accounts.judge.is_signer
            &&& old(ctx).accounts.escrow_account.judge_key == old(ctx).accounts.judge.key
            &&& old(ctx).accounts.escrow_account.order_code == order_code
            &&& status <= STATUS_DELIVERED
            &&& final(ctx).accounts.escrow_account.status == status
        },
{
    if !ctx.accounts.is_authorized() {
        return Err(ErrorCode::AuthorizationFailure);
    }
    if ctx.accounts.escrow_account.order_code != order_code {
        return Err(ErrorCode::ArgumentInvariantViolation);
    }
    if status > STATUS_DELIVERED {
        return Err(ErrorCode::ArgumentInvariantViolation);
    }
    ctx.accounts.escrow_account.status = status;
    if status == STATUS_DELIVERED {
        ctx.accounts.escrow_account.delivery_time = now;
    }
    Ok(())
}

/// Why `adjudge_partial_with` refuses the call, or `None` where it accepts it.
/// `vault_ok` says whether the vault stands at the address derived for the
/// order, `bump` is the bump seed of the derived authority where
/// `vault_authority` is that authority.
pub open spec fn adjudge_partial_rejection_with(
    ctx: Context<AdjudgePartial>,
    order_code: u64,
    amount: u64,
    vault_ok: bool,
    bump: Option<u8>,
) -> Option<ErrorCode> {
    if !ctx.accounts.authorized() {
        Some(ErrorCode::AuthorizationFailure)
    } else if ctx.accounts.escrow_account.order_code != order_code {
        Some(ErrorCode::ArgumentInvariantViolation)
    } else if amount == 0 || amount >= ctx.accounts.escrow_account.amount {
        Some(ErrorCode::ArgumentInvariantViolation)
    } else if !vault_ok {
        Some(ErrorCode::AuthorizationFailure)
    } else if bump is None {
        Some(ErrorCode::AuthorizationFailure)
    } else {
        None
    }
}

/// Why `adjudge_partial` refuses the call, or `None` where it accepts it: as
/// `adjudge_partial_rejection_with` says of what is derived for the order.
pub open spec fn adjudge_partial_rejection(
    ctx: Context<AdjudgePartial>,
    order_code: u64,
    amount: u64,
) -> Option<ErrorCode> {
    adjudge_partial_rejection_with(
        ctx,
        order_code,
        amount,
        is_vault_of(ctx.accounts.vault_account.key, order_code, ctx.program_id),
        vault_signer(order_code, ctx.program_id, ctx.accounts.vault_authority.key),
    )
}

/// The record after an accepted `adjudge_partial`: it holds `amount` less.
pub open spec fn adjudge_partial_record(
    ctx: Context<AdjudgePartial>,
    order_code: u64,
    amount: u64,
) -> EscrowAccount {
    EscrowAccount {
        amount: (ctx.accounts.escrow_account.amount - amount) as u64,
        ..ctx.accounts.escrow_account
    }
}

/// The requests of an accepted `adjudge_partial`: `amount` goes from the vault to the
/// buyer's token account, signed by the derived authority with `bump`.
pub open spec fn adjudge_partial_requests_with(
    ctx: Context<AdjudgePartial>,
    order_code: u64,
    amount: u64,
    bump: u8,
) -> Seq<CustodyRequest> {
    release_requests(ctx.accounts.transfer_to_buyer(), amount, bump)
}

/// The requests of an accepted `adjudge_partial`: those of `adjudge_partial_requests_with` for
/// the bump seed of the authority derived for the order.
pub open spec fn adjudge_partial_requests(
    ctx: Context<AdjudgePartial>,
    order_code: u64,
    amount: u64,
) -> Seq<CustodyRequest> {
    adjudge_partial_requests_with(
        ctx,
        order_code,
        amount,
        vault_signer(order_code, ctx.program_id, ctx.accounts.vault_authority.key).unwrap(),
    )
}

/// Decides `adjudge_partial` from what was derived for the order: `vault_ok` says
/// whether the vault stands at the derived address, `bump` is the bump seed
/// of the derived authority where `vault_authority` is that authority.
///
/// A refused call leaves the record as it was and requests nothing.
pub fn adjudge_partial_with(
    ctx: &mut Context<AdjudgePartial>,
    order_code: u64,
    amount: u64,
    vault_ok: bool,
    bump: Option<u8>,
) -> (r: Result<Vec<CustodyRequest>, ErrorCode>)
    ensures
        final(ctx).program_id == old(ctx).program_id,
        match adjudge_partial_rejection_with(*old(ctx), order_code, amount, vault_ok, bump) {
            Some(e) => r == Err::<Vec<CustodyRequest>, ErrorCode>(e) && *final(ctx) == *old(ctx),
            None => r is Ok && r.unwrap()@ == adjudge_partial_requests_with(*old(ctx), order_code, amount, bump.unwrap())
                && final(ctx).accounts == (AdjudgePartial {
                escrow_account: adjudge_partial_record(*old(ctx), order_code, amount),
                ..old(ctx).accounts
            }),
        },
        old(ctx).accounts.escrow_account.wf() ==> final(ctx).accounts.escrow_account.wf(),
        r is Err ==> *final(ctx) == *old(ctx),
        r is Ok ==> {
            &&& old(ctx).accounts.judge.is_signer
            &&& old(ctx).accounts.escrow_account.judge_key == old(ctx).accounts.judge.key
            &&& old(ctx).accounts.escrow_account.order_code == order_code
            &&& 0 < amount < old(ctx).accounts.escrow_account.amount
            &&& final(ctx).accounts.escrow_account.amount == old(ctx).accounts.escrow_account.amount - amount
        },
{
    if !ctx.accounts.is_authorized() {
        return Err(ErrorCode::AuthorizationFailure);
    }
    if ctx.accounts.escrow_account.order_code != order_code {
        return Err(ErrorCode::ArgumentInvariantViolation);
    }
    if amount == 0 || amount >= ctx.accounts.escrow_account.amount {
        return Err(ErrorCode::ArgumentInvariantViolation);
    }
    if !vault_ok {
        return Err(ErrorCode::AuthorizationFailure);
    }
    let bump: u8 = match bump {
        Some(bump) => bump,
        None => {
            return Err(ErrorCode::AuthorizationFailure);
        },
    };
    let requests = release(ctx.accounts.into_transfer_to_buyer_context(), amount, bump);
    ctx.accounts.escrow_account.amount = ctx.accounts.escrow_account.amount - amount;
    Ok(requests)
}

/// The judge returns `amount` to the buyer, whatever the status. The amount
/// must be positive and leave something in the vault.
///
/// A refused call leaves the record as it was and requests nothing.
pub fn adjudge_partial(
    ctx: &mut Context<AdjudgePartial>,
    order_code: u64,
    amount: u64,
) -> (r: Result<Vec<CustodyRequest>, ErrorCode>)
    ensures
        final(ctx).program_id == old(ctx).program_id,
        match adjudge_partial_rejection(*old(ctx), order_code, amount) {
            Some(e) => r == Err::<Vec<CustodyRequest>, ErrorCode>(e) && *final(ctx) == *old(ctx),
            None => r is Ok && r.unwrap()@ == adjudge_partial_requests(*old(ctx), order_code, amount)
                && final(ctx).accounts == (AdjudgePartial {
                escrow_account: adjudge_partial_record(*old(ctx), order_code, amount),
                ..old(ctx).accounts
            }),
        },
        old(ctx).accounts.escrow_account.wf() ==> final(ctx).accounts.escrow_account.wf(),
        r is Err ==> *final(ctx) == *old(ctx),
        r is Ok ==> {
            &&& old(ctx).accounts.judge.is_signer
            &&& old(ctx).accounts.escrow_account.judge_key == old(ctx).accounts.judge.key
            &&& old(ctx).accounts.escrow_account.order_code == order_code
            &&& 0 < amount < old(ctx).accounts.escrow_account.amount
            &&& final(ctx).accounts.escrow_account.amount == old(ctx).accounts.escrow_account.amount - amount
        },
{
    let vault_ok = check_vault(order_code, &ctx.program_id, &ctx.accounts.vault_account.key);
    let bump = check_vault_authority(
        order_code,
        &ctx.program_id,
        &ctx.accounts.vault_authority.key,
    );
    adjudge_partial_with(ctx, order_code, amount, vault_ok, bump)
}

/// Why `adjudge_for_buyer_with` refuses the call, or `None` where it accepts it.
/// `vault_ok` says whether the vault stands at the address derived for the
/// order, `bump` is the bump seed of the derived authority where
/// `vault_authority` is that authority.
pub open spec fn adjudge_for_buyer_rejection_with(
    ctx: Context<AdjudgeForBuyer>,
    order_code: u64,
    vault_ok: bool,
    bump: Option<u8>,
) -> Option<ErrorCode> {
    if !ctx.accounts.authorized() {
        Some(ErrorCode::AuthorizationFailure)
    } else if ctx.accounts.escrow_account.order_code != order_code {
        Some(ErrorCode::ArgumentInvariantViolation)
    } else if !vault_ok {
        Some(ErrorCode::AuthorizationFailure)
    } else if bump is None {
        Some(ErrorCode::AuthorizationFailure)
    } else {
        None
    }
}

/// Why `adjudge_for_buyer` refuses the call, or `None` where it accepts it: as
/// `adjudge_for_buyer_rejection_with` says of what is derived for the order.
pub open spec fn adjudge_for_buyer_rejection(
    ctx: Context<AdjudgeForBuyer>,
    order_code: u64,
) -> Option<ErrorCode> {
    adjudge_for_buyer_rejection_with(
        ctx,
        order_code,
        is_vault_of(ctx.accounts.vault_account.key, order_code, ctx.program_id),
        vault_signer(order_code, ctx.program_id, ctx.accounts.vault_authority.key),
    )
}

/// The requests of an accepted `adjudge_for_buyer`: the whole amount goes from the vault
/// to the buyer's token account, then the vault and the record are closed,
/// signed by the derived authority with `bump`.
pub open spec fn adjudge_for_buyer_requests_with(
    ctx: Context<AdjudgeForBuyer>,
    order_code: u64,
    bump: u8,
) -> Seq<CustodyRequest> {
    settlement_requests(
        ctx.accounts.transfer_to_buyer(),
        ctx.accounts.close_vault(),
        ctx.accounts.escrow_account.amount,
        bump,
    )
}

/// The requests of an accepted `adjudge_for_buyer`: those of `adjudge_for_buyer_requests_with` for
/// the bump seed of the authority derived for the order.
pub open spec fn adjudge_for_buyer_requests(
    ctx: Context<AdjudgeForBuyer>,
    order_code: u64,
) -> Seq<CustodyRequest> {
    adjudge_for_buyer_requests_with(
        ctx,
        order_code,
        vault_signer(order_code, ctx.program_id, ctx.accounts.vault_authority.key).unwrap(),
    )
}

/// Decides `adjudge_for_buyer` from what was derived for the order: `vault_ok` says
/// whether the vault stands at the derived address, `bump` is the bump seed
/// of the derived authority where `vault_authority` is that authority.
///
/// A refused call leaves the record as it was and requests nothing.
pub fn adjudge_for_buyer_with(
    ctx: &mut Context<AdjudgeForBuyer>,
    order_code: u64,
    vault_ok: bool,
    bump: Option<u8>,
) -> (r: Result<Vec<CustodyRequest>, ErrorCode>)
    ensures
        final(ctx).program_id == old(ctx).program_id,
        match adjudge_for_buyer_rejection_with(*old(ctx), order_code, vault_ok, bump) {
            Some(e) => r == Err::<Vec<CustodyRequest>, ErrorCode>(e) && *final(ctx) == *old(ctx),
            None => r is Ok && r.unwrap()@ == adjudge_for_buyer_requests_with(*old(ctx), order_code, bump.unwrap())
                && *final(ctx) == *old(ctx),
        },
        r is Err ==> *final(ctx) == *old(ctx),
        r is Ok ==> {
            &&& old(ctx).accounts.judge.is_signer
            &&& old(ctx).accounts.escrow_account.judge_key == old(ctx).accounts.judge.key
            &&& old(ctx).accounts.escrow_account.order_code == order_code
        },
{
    if !ctx.accounts.is_authorized() {
        return Err(ErrorCode::AuthorizationFailure);
    }
    if ctx.accounts.escrow_account.order_code != order_code {
        return Err(ErrorCode::ArgumentInvariantViolation);
    }
    if !vault_ok {
        return Err(ErrorCode::AuthorizationFailure);
    }
    let bump: u8 = match bump {
        Some(bump) => bump,
        None => {
            return Err(ErrorCode::AuthorizationFailure);
        },
    };
    let requests = settlement(
        ctx.accounts.into_transfer_to_buyer_context(),
        ctx.accounts.into_close_contest(),
        ctx.accounts.escrow_account.amount,
        bump,
    );
    Ok(requests)
}

/// The judge returns the whole amount to the buyer, whatever the status, and
/// closes the vault and the record.
///
/// A refused call leaves the record as it was and requests nothing.
pub fn adjudge_for_buyer(
    ctx: &mut Context<AdjudgeForBuyer>,
    order_code: u64,
) -> (r: Result<Vec<CustodyRequest>, ErrorCode>)
    ensures
        final(ctx).program_id == old(ctx).program_id,
        match adjudge_for_buyer_rejection(*old(ctx), order_code) {
            Some(e) => r == Err::<Vec<CustodyRequest>, ErrorCode>(e) && *final(ctx) == *old(ctx),
            None => r is Ok && r.unwrap()@ == adjudge_for_buyer_requests(*old(ctx), order_code)
                && *final(ctx) == *old(ctx),
        },
        r is Err ==> *final(ctx) == *old(ctx),
        r is Ok ==> {
            &&& old(ctx).accounts.judge.is_signer
            &&& old(ctx).accounts.escrow_account.judge_key == old(ctx).accounts.judge.key
            &&& old(ctx).accounts.escrow_account.order_code == order_code
        },
{
    let vault_ok = check_vault(order_code, &ctx.program_id, &ctx.accounts.vault_account.key);
    let bump = check_vault_authority(
        order_code,
        &ctx.program_id,
        &ctx.accounts.vault_authority.key,
    );
    adjudge_for_buyer_with(ctx, order_code, vault_ok, bump)
}

/// Why `adjudge_for_seller_with` refuses the call, or `None` where it accepts it.
/// `vault_ok` says whether the vault stands at the address derived for the
/// order, `bump` is the bump seed of the derived authority where
/// `vault_authority` is that authority.
pub open spec fn adjudge_for_seller_rejection_with(
    ctx: Context<AdjudgeForSeller>,
    order_code: u64,
    vault_ok: bool,
    bump: Option<u8>,
) -> Option<ErrorCode> {
    if !ctx.accounts.authorized() {
        Some(ErrorCode::AuthorizationFailure)
    } else if ctx.accounts.escrow_account.order_code != order_code {
        Some(ErrorCode::ArgumentInvariantViolation)
    } else if !vault_ok {
        Some(ErrorCode::AuthorizationFailure)
    } else if bump is None {
        Some(ErrorCode::AuthorizationFailure)
    } else {
        None
    }
}

/// Why `adjudge_for_seller` refuses the call, or `None` where it accepts it: as
/// `adjudge_for_seller_rejection_with` says of what is derived for the order.
pub open spec fn adjudge_for_seller_rejection(
    ctx: Context<AdjudgeForSeller>,
    order_code: u64,
) -> Option<ErrorCode> {
    adjudge_for_seller_rejection_with(
        ctx,
        order_code,
        is_vault_of(ctx.accounts.vault_account.key, order_code, ctx.program_id),
        vault_signer(order_code, ctx.program_id, ctx.accounts.vault_authority.key),
    )
}

/// The requests of an accepted `adjudge_for_seller`: the whole amount goes from the vault
/// to the seller's token account, then the vault and the record are closed,
/// signed by the derived authority with `bump`.
pub open spec fn adjudge_for_seller_requests_with(
    ctx: Context<AdjudgeForSeller>,
    order_code: u64,
    bump: u8,
) -> Seq<CustodyRequest> {
    settlement_requests(
        ctx.accounts.transfer_to_seller(),
        ctx.accounts.close_vault(),
        ctx.accounts.escrow_account.amount,
        bump,
    )
}

/// The requests of an accepted `adjudge_for_seller`: those of `adjudge_for_seller_requests_with` for
/// the bump seed of the authority derived for the order.
pub open spec fn adjudge_for_seller_requests(
    ctx: Context<AdjudgeForSeller>,
    order_code: u64,
) -> Seq<CustodyRequest> {
    adjudge_for_seller_requests_with(
        ctx,
        order_code,
        vault_signer(order_code, ctx.program_id, ctx.accounts.vault_authority.key).unwrap(),
    )
}

/// Decides `adjudge_for_seller` from what was derived for the order: `vault_ok` says
/// whether the vault stands at the derived address, `bump` is the bump seed
/// of the derived authority where `vault_authority` is that authority.
///
/// A refused call leaves the record as it was and requests nothing.
pub fn adjudge_for_seller_with(
    ctx: &mut Context<AdjudgeForSeller>,
    order_code: u64,
    vault_ok: bool,
    bump: Option<u8>,
) -> (r: Result<Vec<CustodyRequest>, ErrorCode>)
    ensures
        final(ctx).program_id == old(ctx).program_id,
        match adjudge_for_seller_rejection_with(*old(ctx), order_code, vault_ok, bump) {
            Some(e) => r == Err::<Vec<CustodyRequest>, ErrorCode>(e) && *final(ctx) == *old(ctx),
            None => r is Ok && r.unwrap()@ == adjudge_for_seller_requests_with(*old(ctx), order_code, bump.unwrap())
                && *final(ctx) == *old(ctx),
        },
        r is Err ==> *final(ctx) == *old(ctx),
        r is Ok ==> {
            &&& old(ctx).accounts.judge.is_signer
            &&& old(ctx).accounts.escrow_account.judge_key == old(ctx).accounts.judge.key
            &&& old(ctx).accounts.escrow_account.order_code == order_code
        },
{
    if !ctx.accounts.is_authorized() {
        return Err(ErrorCode::AuthorizationFailure);
    }
    if ctx.accounts.escrow_account.order_code != order_code {
        return Err(ErrorCode::ArgumentInvariantViolation);
    }
    if !vault_ok {
        return Err(ErrorCode::AuthorizationFailure);
    }
    let bump: u8 = match bump {
        Some(bump) => bump,
        None => {
            return Err(ErrorCode::AuthorizationFailure);
        },
    };
    let requests = settlement(
        ctx.accounts.into_transfer_to_seller_context(),
        ctx.accounts.into_close_context(),
        ctx.accounts.escrow_account.amount,
        bump,
    );
    Ok(requests)
}

/// The judge pays the whole amount to the seller, whatever the status, and
/// closes the vault and the record.
///
/// A refused call leaves the record as it was and requests nothing.
pub fn adjudge_for_seller(
    ctx: &mut Context<AdjudgeForSeller>,
    order_code: u64,
) -> (r: Result<Vec<CustodyRequest>, ErrorCode>)
    ensures
        final(ctx).program_id == old(ctx).program_id,
        match adjudge_for_seller_rejection(*old(ctx), order_code) {
            Some(e) => r == Err::<Vec<CustodyRequest>, ErrorCode>(e) && *final(ctx) == *old(ctx),
            None => r is Ok && r.unwrap()@ == adjudge_for_seller_requests(*old(ctx), order_code)
                && *final(ctx) == *old(ctx),
        },
        r is Err ==> *final(ctx) == *old(ctx),
        r is Ok ==> {
            &&& old(ctx).accounts.judge.is_signer
            &&& old(ctx).accounts.escrow_account.judge_key == old(ctx).accounts.judge.key
            &&& old(ctx).accounts.escrow_account.order_code == order_code
        },
{
    let vault_ok = check_vault(order_code, &ctx.program_id, &ctx.accounts.vault_account.key);
    let bump = check_vault_authority(
        order_code,
        &ctx.program_id,
        &ctx.accounts.vault_authority.key,
    );
    adjudge_for_seller_with(ctx, order_code, vault_ok, bump)
}

/// Why `update_trial_day` refuses the call, or `None` where it accepts it.
pub open spec fn update_trial_day_rejection(
    ctx: Context<UpdateTrialDay>,
    order_code: u64,
    trial_day: u16,
) -> Option<ErrorCode> {
    if !ctx.accounts.authorized() {
        Some(ErrorCode::AuthorizationFailure)
    } else if ctx.accounts.escrow_account.order_code != order_code {
        Some(ErrorCode::ArgumentInvariantViolation)
    } else {
        None
    }
}

/// The record after an accepted `update_trial_day`.
pub open spec fn update_trial_day_record(
    ctx: Context<UpdateTrialDay>,
    order_code: u64,
    trial_day: u16,
) -> EscrowAccount {
    EscrowAccount { trial_day, ..ctx.accounts.escrow_account }
}

/// The judge sets the length of the trial period, in days.
///
/// A refused call leaves the record as it was.
pub fn update_trial_day(
    ctx: &mut Context<UpdateTrialDay>,
    order_code: u64,
    trial_day: u16,
) -> (r: Result<(), ErrorCode>)
    ensures
        final(ctx).program_id == old(ctx).program_id,
        match update_trial_day_rejection(*old(ctx), order_code, trial_day) {
            Some(e) => r == Err::<(), ErrorCode>(e) && *final(ctx) == *old(ctx),
            None => r is Ok && final(ctx).accounts == (UpdateTrialDay {
                escrow_account: update_trial_day_record(*old(ctx), order_code, trial_day),
                ..old(ctx).accounts
            }),
        },
        old(ctx).accounts.escrow_account.wf() ==> final(ctx).accounts.escrow_account.wf(),
        r is Err ==> *final(ctx) == *old(ctx),
        r is Ok ==> {
            &&& old(ctx).accounts.judge.is_signer
            &&& old(ctx).accounts.escrow_account.judge_key == old(ctx).accounts.judge.key
            &&& old(ctx).accounts.escrow_account.order_code == order_code
        },
{
    if !ctx.accounts.is_authorized() {
        return Err(ErrorCode::AuthorizationFailure);
    }
    if ctx.accounts.escrow_account.order_code != order_code {
        return Err(ErrorCode::ArgumentInvariantViolation);
    }
    ctx.accounts.escrow_account.trial_day = trial_day;
    Ok(())
}

} // verus!
