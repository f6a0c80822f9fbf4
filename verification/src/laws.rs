//! What holds of the operations taken together: the vault and the record
//! stay in step, every call is tested against the record, success is owed
//! where the tests pass, and the derived authority is a function of the
//! order. The laws speak of the decisions as functions of what was derived
//! for the order (`vault_ok`, `bump`, `authority`), so they hold whatever the
//! derivation gives.

use vstd::prelude::*;
use crate::accounts::{
    Adjudge, AdjudgeForBuyer, AdjudgeForSeller, AdjudgePartial, Cancel, CancelPartial, ChargeMore,
    Delivered, Exchange, Initialize, Refund, RefundPartial, Shipping, UpdateTrialDay,
};
use crate::authority::{is_authority_of, Authority};
use crate::custody::{Context, CustodyRequest};
use crate::identity::Identity;
use crate::ledger::{
    in_custody, lemma_deposit, lemma_release, lemma_settle_two, lemma_settlement, moved, settle,
};
use crate::operations::{
    adjudge_for_buyer_rejection_with, adjudge_for_buyer_requests_with,
    adjudge_for_seller_rejection_with, adjudge_for_seller_requests_with, adjudge_partial_record,
    adjudge_partial_rejection_with, adjudge_partial_requests_with, adjudge_record,
    adjudge_rejection, cancel_partial_record, cancel_partial_rejection_with,
    cancel_partial_requests_with, cancel_rejection_with, cancel_requests_with,
    charge_more_record, charge_more_rejection_with, charge_more_requests, delivered_record,
    delivered_rejection, exchange_rejection_with, exchange_requests_with, initialize_record,
    initialize_rejection_with, initialize_requests_with, refund_partial_record,
    refund_partial_rejection_with, refund_partial_requests_with, refund_record, refund_rejection,
    shipping_record, shipping_rejection, update_trial_day_record, update_trial_day_rejection,
};
use crate::record::{ErrorCode, SECONDS_PER_DAY, STATUS_DELIVERED, STATUS_NEW, STATUS_SHIPPING};

verus! {

/// Deriving the authority of an order twice gives the same authority: any
/// two outcomes of the derivation for one order code and one program are
/// equal.
pub proof fn law_derivation_is_deterministic(
    order_code: u64,
    program_id: Identity,
    first: Option<Authority>,
    second: Option<Authority>,
)
    requires
        is_authority_of(first, order_code, program_id),
        is_authority_of(second, order_code, program_id),
    ensures
        first == second,
{
    if first is Some {
        Identity::lemma_view_injective(first.unwrap().key, second.unwrap().key);
    }
}

/// `initialize` is owed to a buyer who signed, names a positive amount and
/// holds it, where the vault stands at the derived address and the order has
/// a derived authority; otherwise the error is the first of those that fails.
pub proof fn law_initialize_is_owed(ctx: Context<Initialize>, amount: u64, authority: Authority)
    requires
        ctx.accounts.buyer.is_signer,
    ensures
        initialize_rejection_with(ctx, amount, true, Some(authority)) == if amount == 0 {
            Some(ErrorCode::ArgumentInvariantViolation)
        } else if ctx.accounts.buyer_deposit_token_account.amount < amount {
            Some(ErrorCode::InsufficientFunds)
        } else {
            None::<ErrorCode>
        },
{
}

/// After an accepted `initialize` on a fresh, empty vault, the vault holds
/// exactly the amount on record, and the buyer's token account holds that
/// much less.
pub proof fn law_initialize_custody(
    balances: Map<Identity, nat>,
    ctx: Context<Initialize>,
    amount: u64,
    order_code: u64,
    trial_day: u16,
    now: i64,
    vault_ok: bool,
    authority: Option<Authority>,
)
    requires
        initialize_rejection_with(ctx, amount, vault_ok, authority) is None,
        balances.contains_key(ctx.accounts.vault_account.key),
        balances[ctx.accounts.vault_account.key] == 0,
        balances.contains_key(ctx.accounts.buyer_deposit_token_account.key),
        balances[ctx.accounts.buyer_deposit_token_account.key]
            == ctx.accounts.buyer_deposit_token_account.amount,
        ctx.accounts.buyer_deposit_token_account.key != ctx.accounts.vault_account.key,
    ensures
        in_custody(
            settle(balances, initialize_requests_with(ctx, amount, authority.unwrap().key)),
            ctx.accounts.vault_account.key,
            initialize_record(ctx, amount, order_code, trial_day, now),
        ),
        settle(
            balances,
            initialize_requests_with(ctx, amount, authority.unwrap().key),
        )[ctx.accounts.buyer_deposit_token_account.key]
            == balances[ctx.accounts.buyer_deposit_token_account.key] - amount,
{
    let requests = initialize_requests_with(ctx, amount, authority.unwrap().key);
    lemma_settle_two(balances, requests[0], requests[1]);
    assert(requests =~= seq![requests[0], requests[1]]);
}

/// `cancel_partial` is owed on a new order to the buyer on record, with the accounts
/// on record and the derived vault and authority, exactly where the amount is
/// positive and less than what is held.
pub proof fn law_cancel_partial_is_owed(ctx: Context<CancelPartial>, order_code: u64, amount: u64, bump: u8)
    requires
        ctx.accounts.authorized(),
        ctx.accounts.escrow_account.order_code == order_code,
        ctx.accounts.escrow_account.status == STATUS_NEW,
    ensures
        cancel_partial_rejection_with(ctx, order_code, amount, true, Some(bump)) == if 0 < amount
            < ctx.accounts.escrow_account.amount {
            None::<ErrorCode>
        } else {
            Some(ErrorCode::ArgumentInvariantViolation)
        },
{
}

/// After an accepted `cancel_partial` there is exactly one request, a transfer of
/// `amount` from the vault to the buyer's token account; the vault then still
/// holds exactly the amount on record, which is `amount` less than before and
/// positive, the buyer's token account holds `amount` more, every other
/// balance is as before, and so are the status and the delivery time.
pub proof fn law_cancel_partial_custody(
    balances: Map<Identity, nat>,
    ctx: Context<CancelPartial>,
    order_code: u64,
    amount: u64,
    vault_ok: bool,
    bump: Option<u8>,
)
    requires
        cancel_partial_rejection_with(ctx, order_code, amount, vault_ok, bump) is None,
        in_custody(balances, ctx.accounts.vault_account.key, ctx.accounts.escrow_account),
        balances.contains_key(ctx.accounts.buyer_deposit_token_account.key),
        ctx.accounts.buyer_deposit_token_account.key != ctx.accounts.vault_account.key,
    ensures
        cancel_partial_requests_with(ctx, order_code, amount, bump.unwrap()) == seq![
            CustodyRequest::Transfer {
                accounts: ctx.accounts.transfer_to_buyer(),
                amount,
                signer_bump: bump,
            },
        ],
        ctx.accounts.transfer_to_buyer().to == ctx.accounts.escrow_account.buyer_deposit_token_account,
        in_custody(
            settle(balances, cancel_partial_requests_with(ctx, order_code, amount, bump.unwrap())),
            ctx.accounts.vault_account.key,
            cancel_partial_record(ctx, order_code, amount),
        ),
        settle(balances, cancel_partial_requests_with(ctx, order_code, amount, bump.unwrap())) == moved(
            balances,
            ctx.accounts.vault_account.key,
            ctx.accounts.buyer_deposit_token_account.key,
            amount as nat,
        ),
        cancel_partial_record(ctx, order_code, amount).amount == ctx.accounts.escrow_account.amount
            - amount,
        cancel_partial_record(ctx, order_code, amount).amount > 0,
        cancel_partial_record(ctx, order_code, amount).status == ctx.accounts.escrow_account.status,
        cancel_partial_record(ctx, order_code, amount).delivery_time
            == ctx.accounts.escrow_account.delivery_time,
        settle(
            balances,
            cancel_partial_requests_with(ctx, order_code, amount, bump.unwrap()),
        )[ctx.accounts.buyer_deposit_token_account.key]
            == balances[ctx.accounts.buyer_deposit_token_account.key] + amount,
{
    lemma_release(balances, ctx.accounts.transfer_to_buyer(), amount, bump.unwrap());
}

/// `refund_partial` is owed on a shipped or delivered order to the seller on record, with the accounts
/// on record and the derived vault and authority, exactly where the amount is
/// positive and less than what is held.
pub proof fn law_refund_partial_is_owed(ctx: Context<RefundPartial>, order_code: u64, amount: u64, bump: u8)
    requires
        ctx.accounts.authorized(),
        ctx.accounts.escrow_account.order_code == order_code,
        ctx.accounts.escrow_account.status > STATUS_NEW,
    ensures
        refund_partial_rejection_with(ctx, order_code, amount, true, Some(bump)) == if 0 < amount
            < ctx.accounts.escrow_account.amount {
            None::<ErrorCode>
        } else {
            Some(ErrorCode::ArgumentInvariantViolation)
        },
{
}

/// After an accepted `refund_partial` there is exactly one request, a transfer of
/// `amount` from the vault to the buyer's token account; the vault then still
/// holds exactly the amount on record, which is `amount` less than before and
/// positive, the buyer's token account holds `amount` more, every other
/// balance is as before, and so are the status and the delivery time.
pub proof fn law_refund_partial_custody(
    balances: Map<Identity, nat>,
    ctx: Context<RefundPartial>,
    order_code: u64,
    amount: u64,
    vault_ok: bool,
    bump: Option<u8>,
)
    requires
        refund_partial_rejection_with(ctx, order_code, amount, vault_ok, bump) is None,
        in_custody(balances, ctx.accounts.vault_account.key, ctx.accounts.escrow_account),
        balances.contains_key(ctx.accounts.buyer_deposit_token_account.key),
        ctx.accounts.buyer_deposit_token_account.key != ctx.accounts.vault_account.key,
    ensures
        refund_partial_requests_with(ctx, order_code, amount, bump.unwrap()) == seq![
            CustodyRequest::Transfer {
                accounts: ctx.accounts.transfer_to_buyer(),
                amount,
                signer_bump: bump,
            },
        ],
        ctx.accounts.transfer_to_buyer().to == ctx.accounts.escrow_account.buyer_deposit_token_account,
        in_custody(
            settle(balances, refund_partial_requests_with(ctx, order_code, amount, bump.unwrap())),
            ctx.accounts.vault_account.key,
            refund_partial_record(ctx, order_code, amount),
        ),
        settle(balances, refund_partial_requests_with(ctx, order_code, amount, bump.unwrap())) == moved(
            balances,
            ctx.accounts.vault_account.key,
            ctx.accounts.buyer_deposit_token_account.key,
            amount as nat,
        ),
        refund_partial_record(ctx, order_code, amount).amount == ctx.accounts.escrow_account.amount
            - amount,
        refund_partial_record(ctx, order_code, amount).amount > 0,
        refund_partial_record(ctx, order_code, amount).status == ctx.accounts.escrow_account.status,
        refund_partial_record(ctx, order_code, amount).delivery_time
            == ctx.accounts.escrow_account.delivery_time,
        settle(
            balances,
            refund_partial_requests_with(ctx, order_code, amount, bump.unwrap()),
        )[ctx.accounts.buyer_deposit_token_account.key]
            == balances[ctx.accounts.buyer_deposit_token_account.key] + amount,
{
    lemma_release(balances, ctx.accounts.transfer_to_buyer(), amount, bump.unwrap());
}

/// `adjudge_partial` is owed at any status to the judge on record, with the accounts
/// on record and the derived vault and authority, exactly where the amount is
/// positive and less than what is held.
pub proof fn law_adjudge_partial_is_owed(ctx: Context<AdjudgePartial>, order_code: u64, amount: u64, bump: u8)
    requires
        ctx.accounts.authorized(),
        ctx.accounts.escrow_account.order_code == order_code,
    ensures
        adjudge_partial_rejection_with(ctx, order_code, amount, true, Some(bump)) == if 0 < amount
            < ctx.accounts.escrow_account.amount {
            None::<ErrorCode>
        } else {
            Some(ErrorCode::ArgumentInvariantViolation)
        },
{
}

/// After an accepted `adjudge_partial` there is exactly one request, a transfer of
/// `amount` from the vault to the buyer's token account; the vault then still
/// holds exactly the amount on record, which is `amount` less than before and
/// positive, the buyer's token account holds `amount` more, every other
/// balance is as before, and so are the status and the delivery time.
pub proof fn law_adjudge_partial_custody(
    balances: Map<Identity, nat>,
    ctx: Context<AdjudgePartial>,
    order_code: u64,
    amount: u64,
    vault_ok: bool,
    bump: Option<u8>,
)
    requires
        adjudge_partial_rejection_with(ctx, order_code, amount, vault_ok, bump) is None,
        in_custody(balances, ctx.accounts.vault_account.key, ctx.accounts.escrow_account),
        balances.contains_key(ctx.accounts.buyer_deposit_token_account.key),
        ctx.accounts.buyer_deposit_token_account.key != ctx.accounts.vault_account.key,
    ensures
        adjudge_partial_requests_with(ctx, order_code, amount, bump.unwrap()) == seq![
            CustodyRequest::Transfer {
                accounts: ctx.accounts.transfer_to_buyer(),
                amount,
                signer_bump: bump,
            },
        ],
        ctx.accounts.transfer_to_buyer().to == ctx.accounts.escrow_account.buyer_deposit_token_account,
        in_custody(
            settle(balances, adjudge_partial_requests_with(ctx, order_code, amount, bump.unwrap())),
            ctx.accounts.vault_account.key,
            adjudge_partial_record(ctx, order_code, amount),
        ),
        settle(balances, adjudge_partial_requests_with(ctx, order_code, amount, bump.unwrap())) == moved(
            balances,
            ctx.accounts.vault_account.key,
            ctx.accounts.buyer_deposit_token_account.key,
            amount as nat,
        ),
        adjudge_partial_record(ctx, order_code, amount).amount == ctx.accounts.escrow_account.amount
            - amount,
        adjudge_partial_record(ctx, order_code, amount).amount > 0,
        adjudge_partial_record(ctx, order_code, amount).status == ctx.accounts.escrow_account.status,
        adjudge_partial_record(ctx, order_code, amount).delivery_time
            == ctx.accounts.escrow_account.delivery_time,
        settle(
            balances,
            adjudge_partial_requests_with(ctx, order_code, amount, bump.unwrap()),
        )[ctx.accounts.buyer_deposit_token_account.key]
            == balances[ctx.accounts.buyer_deposit_token_account.key] + amount,
{
    lemma_release(balances, ctx.accounts.transfer_to_buyer(), amount, bump.unwrap());
}

/// `charge_more` is owed to the buyer on record, with the accounts on record
/// and the derived vault, exactly where the amount is positive, the buyer
/// holds it and the vault can hold it; otherwise the error is the first of
/// those that fails.
pub proof fn law_charge_more_is_owed(ctx: Context<ChargeMore>, order_code: u64, amount: u64)
    requires
        ctx.accounts.authorized(),
        ctx.accounts.escrow_account.order_code == order_code,
    ensures
        charge_more_rejection_with(ctx, order_code, amount, true) == if amount == 0 {
            Some(ErrorCode::ArgumentInvariantViolation)
        } else if ctx.accounts.buyer_deposit_token_account.amount < amount {
            Some(ErrorCode::InsufficientFunds)
        } else if ctx.accounts.escrow_account.amount + amount > u64::MAX {
            Some(ErrorCode::ArgumentInvariantViolation)
        } else {
            None::<ErrorCode>
        },
{
}

/// After an accepted `charge_more` the vault still holds exactly the amount
/// on record, which is `amount` more than before, the buyer's token account
/// holds `amount` less, and the status, the delivery time and the trial
/// period are as before.
pub proof fn law_charge_more_custody(
    balances: Map<Identity, nat>,
    ctx: Context<ChargeMore>,
    order_code: u64,
    amount: u64,
    vault_ok: bool,
)
    requires
        charge_more_rejection_with(ctx, order_code, amount, vault_ok) is None,
        in_custody(balances, ctx.accounts.vault_account.key, ctx.accounts.escrow_account),
        balances.contains_key(ctx.accounts.buyer_deposit_token_account.key),
        balances[ctx.accounts.buyer_deposit_token_account.key]
            == ctx.accounts.buyer_deposit_token_account.amount,
        ctx.accounts.buyer_deposit_token_account.key != ctx.accounts.vault_account.key,
    ensures
        in_custody(
            settle(balances, charge_more_requests(ctx, order_code, amount)),
            ctx.accounts.vault_account.key,
            charge_more_record(ctx, order_code, amount),
        ),
        settle(balances, charge_more_requests(ctx, order_code, amount)) == moved(
            balances,
            ctx.accounts.buyer_deposit_token_account.key,
            ctx.accounts.vault_account.key,
            amount as nat,
        ),
        charge_more_record(ctx, order_code, amount).amount == ctx.accounts.escrow_account.amount
            + amount,
        charge_more_record(ctx, order_code, amount).status == ctx.accounts.escrow_account.status,
        charge_more_record(ctx, order_code, amount).delivery_time
            == ctx.accounts.escrow_account.delivery_time,
        charge_more_record(ctx, order_code, amount).trial_day
            == ctx.accounts.escrow_account.trial_day,
        settle(
            balances,
            charge_more_requests(ctx, order_code, amount),
        )[ctx.accounts.buyer_deposit_token_account.key]
            == balances[ctx.accounts.buyer_deposit_token_account.key] - amount,
{
    lemma_deposit(balances, ctx.accounts.transfer_to_pda(), amount);
}

/// `exchange` is owed to the seller on record, on a delivered order with the
/// accounts on record and the derived vault and authority, exactly where
/// `now` is at or after the delivery time plus the trial days of 86400
/// seconds each; before that it is refused as still in the trial period.
pub proof fn law_exchange_is_owed(ctx: Context<Exchange>, now: i64, bump: u8)
    requires
        ctx.accounts.authorized(),
        ctx.accounts.escrow_account.status == STATUS_DELIVERED,
    ensures
        exchange_rejection_with(ctx, now, true, Some(bump)) == if now
            >= ctx.accounts.escrow_account.delivery_time + ctx.accounts.escrow_account.trial_day
            * SECONDS_PER_DAY {
            None::<ErrorCode>
        } else {
            Some(ErrorCode::InTrialDay)
        },
{
}

/// `cancel` is owed to the buyer on record on a new order, and
/// `adjudge_for_buyer` and `adjudge_for_seller` to the judge on record at any
/// status, with the accounts on record and the derived vault and authority.
pub proof fn law_full_settlement_is_owed(
    cancel_call: Context<Cancel>,
    for_buyer_call: Context<AdjudgeForBuyer>,
    for_seller_call: Context<AdjudgeForSeller>,
    order_code: u64,
    bump: u8,
)
    ensures
        cancel_call.accounts.authorized() && cancel_call.accounts.escrow_account.order_code
            == order_code && cancel_call.accounts.escrow_account.status == STATUS_NEW
            ==> cancel_rejection_with(cancel_call, order_code, true, Some(bump)) is None,
        for_buyer_call.accounts.authorized() && for_buyer_call.accounts.escrow_account.order_code
            == order_code ==> adjudge_for_buyer_rejection_with(
            for_buyer_call,
            order_code,
            true,
            Some(bump),
        ) is None,
        for_seller_call.accounts.authorized()
            && for_seller_call.accounts.escrow_account.order_code == order_code
            ==> adjudge_for_seller_rejection_with(
            for_seller_call,
            order_code,
            true,
            Some(bump),
        ) is None,
{
}

/// After an accepted `cancel` the requests are a transfer of the whole amount
/// on record from the vault to the buyer's token account, the closing of the
/// vault with the buyer as destination, and the closing of the record. The
/// buyer's token account then holds that amount more, and the vault is gone
/// from the ledger.
pub proof fn law_cancel_custody(
    balances: Map<Identity, nat>,
    ctx: Context<Cancel>,
    order_code: u64,
    vault_ok: bool,
    bump: Option<u8>,
)
    requires
        cancel_rejection_with(ctx, order_code, vault_ok, bump) is None,
        in_custody(balances, ctx.accounts.vault_account.key, ctx.accounts.escrow_account),
        balances.contains_key(ctx.accounts.buyer_deposit_token_account.key),
        ctx.accounts.buyer_deposit_token_account.key != ctx.accounts.vault_account.key,
    ensures
        cancel_requests_with(ctx, order_code, bump.unwrap()) == seq![
            CustodyRequest::Transfer {
                accounts: ctx.accounts.transfer_to_buyer(),
                amount: ctx.accounts.escrow_account.amount,
                signer_bump: bump,
            },
            CustodyRequest::CloseAccount { accounts: ctx.accounts.close_vault(), signer_bump: bump },
            CustodyRequest::CloseRecord { destination: ctx.accounts.buyer.key },
        ],
        ctx.accounts.close_vault().account == ctx.accounts.vault_account.key,
        ctx.accounts.close_vault().destination == ctx.accounts.buyer.key,
        settle(balances, cancel_requests_with(ctx, order_code, bump.unwrap())) == moved(
            balances,
            ctx.accounts.vault_account.key,
            ctx.accounts.buyer_deposit_token_account.key,
            ctx.accounts.escrow_account.amount as nat,
        ).remove(ctx.accounts.vault_account.key),
        !settle(balances, cancel_requests_with(ctx, order_code, bump.unwrap())).contains_key(
            ctx.accounts.vault_account.key,
        ),
        settle(balances, cancel_requests_with(ctx, order_code, bump.unwrap()))[ctx.accounts.buyer_deposit_token_account.key]
            == balances[ctx.accounts.buyer_deposit_token_account.key] + ctx.accounts.escrow_account.amount,
{
    lemma_settlement(
        balances,
        ctx.accounts.transfer_to_buyer(),
        ctx.accounts.close_vault(),
        ctx.accounts.escrow_account.amount,
        bump.unwrap(),
    );
}

/// After an accepted `exchange` the requests are a transfer of the whole amount
/// on record from the vault to the seller's token account, the closing of the
/// vault with the buyer as destination, and the closing of the record. The
/// seller's token account then holds that amount more, and the vault is gone
/// from the ledger.
pub proof fn law_exchange_custody(
    balances: Map<Identity, nat>,
    ctx: Context<Exchange>,
    now: i64,
    vault_ok: bool,
    bump: Option<u8>,
)
    requires
        exchange_rejection_with(ctx, now, vault_ok, bump) is None,
        in_custody(balances, ctx.accounts.vault_account.key, ctx.accounts.escrow_account),
        balances.contains_key(ctx.accounts.seller_receive_token_account.key),
        ctx.accounts.seller_receive_token_account.key != ctx.accounts.vault_account.key,
    ensures
        exchange_requests_with(ctx, now, bump.unwrap()) == seq![
            CustodyRequest::Transfer {
                accounts: ctx.accounts.transfer_to_seller(),
                amount: ctx.accounts.escrow_account.amount,
                signer_bump: bump,
            },
            CustodyRequest::CloseAccount { accounts: ctx.accounts.close_vault(), signer_bump: bump },
            CustodyRequest::CloseRecord { destination: ctx.accounts.buyer.key },
        ],
        ctx.accounts.close_vault().account == ctx.accounts.vault_account.key,
        ctx.accounts.close_vault().destination == ctx.accounts.buyer.key,
        settle(balances, exchange_requests_with(ctx, now, bump.unwrap())) == moved(
            balances,
            ctx.accounts.vault_account.key,
            ctx.accounts.seller_receive_token_account.key,
            ctx.accounts.escrow_account.amount as nat,
        ).remove(ctx.accounts.vault_account.key),
        !settle(balances, exchange_requests_with(ctx, now, bump.unwrap())).contains_key(
            ctx.accounts.vault_account.key,
        ),
        settle(balances, exchange_requests_with(ctx, now, bump.unwrap()))[ctx.accounts.seller_receive_token_account.key]
            == balances[ctx.accounts.seller_receive_token_account.key] + ctx.accounts.escrow_account.amount,
{
    lemma_settlement(
        balances,
        ctx.accounts.transfer_to_seller(),
        ctx.accounts.close_vault(),
        ctx.accounts.escrow_account.amount,
        bump.unwrap(),
    );
}

/// After an accepted `adjudge_for_buyer` the requests are a transfer of the whole amount
/// on record from the vault to the buyer's token account, the closing of the
/// vault with the buyer as destination, and the closing of the record. The
/// buyer's token account then holds that amount more, and the vault is gone
/// from the ledger.
pub proof fn law_adjudge_for_buyer_custody(
    balances: Map<Identity, nat>,
    ctx: Context<AdjudgeForBuyer>,
    order_code: u64,
    vault_ok: bool,
    bump: Option<u8>,
)
    requires
        adjudge_for_buyer_rejection_with(ctx, order_code, vault_ok, bump) is None,
        in_custody(balances, ctx.accounts.vault_account.key, ctx.accounts.escrow_account),
        balances.contains_key(ctx.accounts.buyer_deposit_token_account.key),
        ctx.accounts.buyer_deposit_token_account.key != ctx.accounts.vault_account.key,
    ensures
        adjudge_for_buyer_requests_with(ctx, order_code, bump.unwrap()) == seq![
            CustodyRequest::Transfer {
                accounts: ctx.accounts.transfer_to_buyer(),
                amount: ctx.accounts.escrow_account.amount,
                signer_bump: bump,
            },
            CustodyRequest::CloseAccount { accounts: ctx.accounts.close_vault(), signer_bump: bump },
            CustodyRequest::CloseRecord { destination: ctx.accounts.buyer.key },
        ],
        ctx.accounts.close_vault().account == ctx.accounts.vault_account.key,
        ctx.accounts.close_vault().destination == ctx.accounts.buyer.key,
        settle(balances, adjudge_for_buyer_requests_with(ctx, order_code, bump.unwrap())) == moved(
            balances,
            ctx.accounts.vault_account.key,
            ctx.accounts.buyer_deposit_token_account.key,
            ctx.accounts.escrow_account.amount as nat,
        ).remove(ctx.accounts.vault_account.key),
        !settle(balances, adjudge_for_buyer_requests_with(ctx, order_code, bump.unwrap())).contains_key(
            ctx.accounts.vault_account.key,
        ),
        settle(balances, adjudge_for_buyer_requests_with(ctx, order_code, bump.unwrap()))[ctx.accounts.buyer_deposit_token_account.key]
            == balances[ctx.accounts.buyer_deposit_token_account.key] + ctx.accounts.escrow_account.amount,
{
    lemma_settlement(
        balances,
        ctx.accounts.transfer_to_buyer(),
        ctx.accounts.close_vault(),
        ctx.accounts.escrow_account.amount,
        bump.unwrap(),
    );
}

/// After an accepted `adjudge_for_seller` the requests are a transfer of the whole amount
/// on record from the vault to the seller's token account, the closing of the
/// vault with the buyer as destination, and the closing of the record. The
/// seller's token account then holds that amount more, and the vault is gone
/// from the ledger.
pub proof fn law_adjudge_for_seller_custody(
    balances: Map<Identity, nat>,
    ctx: Context<AdjudgeForSeller>,
    order_code: u64,
    vault_ok: bool,
    bump: Option<u8>,
)
    requires
        adjudge_for_seller_rejection_with(ctx, order_code, vault_ok, bump) is None,
        in_custody(balances, ctx.accounts.vault_account.key, ctx.accounts.escrow_account),
        balances.contains_key(ctx.accounts.seller_receive_token_account.key),
        ctx.accounts.seller_receive_token_account.key != ctx.accounts.vault_account.key,
    ensures
        adjudge_for_seller_requests_with(ctx, order_code, bump.unwrap()) == seq![
            CustodyRequest::Transfer {
                accounts: ctx.accounts.transfer_to_seller(),
                amount: ctx.accounts.escrow_account.amount,
                signer_bump: bump,
            },
            CustodyRequest::CloseAccount { accounts: ctx.accounts.close_vault(), signer_bump: bump },
            CustodyRequest::CloseRecord { destination: ctx.accounts.buyer.key },
        ],
        ctx.accounts.close_vault().account == ctx.accounts.vault_account.key,
        ctx.accounts.close_vault().destination == ctx.accounts.buyer.key,
        settle(balances, adjudge_for_seller_requests_with(ctx, order_code, bump.unwrap())) == moved(
            balances,
            ctx.accounts.vault_account.key,
            ctx.accounts.seller_receive_token_account.key,
            ctx.accounts.escrow_account.amount as nat,
        ).remove(ctx.accounts.vault_account.key),
        !settle(balances, adjudge_for_seller_requests_with(ctx, order_code, bump.unwrap())).contains_key(
            ctx.accounts.vault_account.key,
        ),
        settle(balances, adjudge_for_seller_requests_with(ctx, order_code, bump.unwrap()))[ctx.accounts.seller_receive_token_account.key]
            == balances[ctx.accounts.seller_receive_token_account.key] + ctx.accounts.escrow_account.amount,
{
    lemma_settlement(
        balances,
        ctx.accounts.transfer_to_seller(),
        ctx.accounts.close_vault(),
        ctx.accounts.escrow_account.amount,
        bump.unwrap(),
    );
}

/// The operations that move no funds leave the amount on record as it was,
/// so the vault, which they do not touch, still holds it.
pub proof fn law_status_operations_keep_amount(
    shipped: Context<Shipping>,
    received: Context<Delivered>,
    refunded: Context<Refund>,
    ruled: Context<Adjudge>,
    extended: Context<UpdateTrialDay>,
    order_code: u64,
    status: u8,
    trial_day: u16,
    now: i64,
)
    ensures
        shipping_record(shipped, order_code).amount == shipped.accounts.escrow_account.amount,
        delivered_record(received, order_code, now).amount
            == received.accounts.escrow_account.amount,
        refund_record(refunded, order_code).amount == refunded.accounts.escrow_account.amount,
        adjudge_record(ruled, order_code, status, now).amount
            == ruled.accounts.escrow_account.amount,
        update_trial_day_record(extended, order_code, trial_day).amount
            == extended.accounts.escrow_account.amount,
{
}

/// An operation called with another order code than the record's is refused,
/// whoever calls it, whatever the status and whatever was derived; a refused
/// operation changes nothing.
pub proof fn law_wrong_order_code_is_refused(
    cancel_call: Context<Cancel>,
    cancel_partial_call: Context<CancelPartial>,
    charge_more_call: Context<ChargeMore>,
    shipping_call: Context<Shipping>,
    delivered_call: Context<Delivered>,
    refund_call: Context<Refund>,
    refund_partial_call: Context<RefundPartial>,
    exchange_call: Context<Exchange>,
    adjudge_call: Context<Adjudge>,
    adjudge_partial_call: Context<AdjudgePartial>,
    adjudge_for_buyer_call: Context<AdjudgeForBuyer>,
    adjudge_for_seller_call: Context<AdjudgeForSeller>,
    update_trial_day_call: Context<UpdateTrialDay>,
    order_code: u64,
    amount: u64,
    status: u8,
    trial_day: u16,
    now: i64,
    vault_ok: bool,
    bump: Option<u8>,
)
    ensures
        cancel_call.accounts.escrow_account.order_code != order_code ==> cancel_rejection_with(
            cancel_call,
            order_code,
            vault_ok,
            bump,
        ) is Some,
        cancel_partial_call.accounts.escrow_account.order_code != order_code ==> cancel_partial_rejection_with(
            cancel_partial_call,
            order_code,
            amount,
            vault_ok,
            bump,
        ) is Some,
        charge_more_call.accounts.escrow_account.order_code != order_code ==> charge_more_rejection_with(
            charge_more_call,
            order_code,
            amount,
            vault_ok,
        ) is Some,
        shipping_call.accounts.escrow_account.order_code != order_code ==> shipping_rejection(
            shipping_call,
            order_code,
        ) is Some,
        delivered_call.accounts.escrow_account.order_code != order_code ==> delivered_rejection(
            delivered_call,
            order_code,
            now,
        ) is Some,
        refund_call.accounts.escrow_account.order_code != order_code ==> refund_rejection(
            refund_call,
            order_code,
        ) is Some,
        refund_partial_call.accounts.escrow_account.order_code != order_code ==> refund_partial_rejection_with(
            refund_partial_call,
            order_code,
            amount,
            vault_ok,
            bump,
        ) is Some,
        adjudge_call.accounts.escrow_account.order_code != order_code ==> adjudge_rejection(
            adjudge_call,
            order_code,
            status,
            now,
        ) is Some,
        adjudge_partial_call.accounts.escrow_account.order_code != order_code ==> adjudge_partial_rejection_with(
            adjudge_partial_call,
            order_code,
            amount,
            vault_ok,
            bump,
        ) is Some,
        adjudge_for_buyer_call.accounts.escrow_account.order_code != order_code ==> adjudge_for_buyer_rejection_with(
            adjudge_for_buyer_call,
            order_code,
            vault_ok,
            bump,
        ) is Some,
        adjudge_for_seller_call.accounts.escrow_account.order_code != order_code ==> adjudge_for_seller_rejection_with(
            adjudge_for_seller_call,
            order_code,
            vault_ok,
            bump,
        ) is Some,
        update_trial_day_call.accounts.escrow_account.order_code != order_code ==> update_trial_day_rejection(
            update_trial_day_call,
            order_code,
            trial_day,
        ) is Some,
{
}

/// An operation is refused as unauthorized unless the party it belongs to
/// signed and is the one on record: the buyer for `cancel`, `cancel_partial`,
/// `charge_more` and `delivered`; the seller for `shipping`, `refund`,
/// `refund_partial` and `exchange`; the judge for the rest.
pub proof fn law_only_the_party_on_record(
    cancel_call: Context<Cancel>,
    cancel_partial_call: Context<CancelPartial>,
    charge_more_call: Context<ChargeMore>,
    shipping_call: Context<Shipping>,
    delivered_call: Context<Delivered>,
    refund_call: Context<Refund>,
    refund_partial_call: Context<RefundPartial>,
    exchange_call: Context<Exchange>,
    adjudge_call: Context<Adjudge>,
    adjudge_partial_call: Context<AdjudgePartial>,
    adjudge_for_buyer_call: Context<AdjudgeForBuyer>,
    adjudge_for_seller_call: Context<AdjudgeForSeller>,
    update_trial_day_call: Context<UpdateTrialDay>,
    order_code: u64,
    amount: u64,
    status: u8,
    trial_day: u16,
    now: i64,
    vault_ok: bool,
    bump: Option<u8>,
)
    ensures
        !(cancel_call.accounts.buyer.is_signer
            && cancel_call.accounts.escrow_account.buyer_key
            == cancel_call.accounts.buyer.key) ==> cancel_rejection_with(
            cancel_call,
            order_code,
            vault_ok,
            bump,
        ) == Some(ErrorCode::AuthorizationFailure),
        !(cancel_partial_call.accounts.buyer.is_signer
            && cancel_partial_call.accounts.escrow_account.buyer_key
            == cancel_partial_call.accounts.buyer.key) ==> cancel_partial_rejection_with(
            cancel_partial_call,
            order_code,
            amount,
            vault_ok,
            bump,
        ) == Some(ErrorCode::AuthorizationFailure),
        !(charge_more_call.accounts.buyer.is_signer
            && charge_more_call.accounts.escrow_account.buyer_key
            == charge_more_call.accounts.buyer.key) ==> charge_more_rejection_with(
            charge_more_call,
            order_code,
            amount,
            vault_ok,
        ) == Some(ErrorCode::AuthorizationFailure),
        !(shipping_call.accounts.seller.is_signer
            && shipping_call.accounts.escrow_account.seller_key
            == shipping_call.accounts.seller.key) ==> shipping_rejection(
            shipping_call,
            order_code,
        ) == Some(ErrorCode::AuthorizationFailure),
        !(delivered_call.accounts.buyer.is_signer
            && delivered_call.accounts.escrow_account.buyer_key
            == delivered_call.accounts.buyer.key) ==> delivered_rejection(
            delivered_call,
            order_code,
            now,
        ) == Some(ErrorCode::AuthorizationFailure),
        !(refund_call.accounts.seller.is_signer
            && refund_call.accounts.escrow_account.seller_key
            == refund_call.accounts.seller.key) ==> refund_rejection(
            refund_call,
            order_code,
        ) == Some(ErrorCode::AuthorizationFailure),
        !(refund_partial_call.accounts.seller.is_signer
            && refund_partial_call.accounts.escrow_account.seller_key
            == refund_partial_call.accounts.seller.key) ==> refund_partial_rejection_with(
            refund_partial_call,
            order_code,
            amount,
            vault_ok,
            bump,
        ) == Some(ErrorCode::AuthorizationFailure),
        !(exchange_call.accounts.seller.is_signer
            && exchange_call.accounts.escrow_account.seller_key
            == exchange_call.accounts.seller.key) ==> exchange_rejection_with(
            exchange_call,
            now,
            vault_ok,
            bump,
        ) == Some(ErrorCode::AuthorizationFailure),
        !(adjudge_call.accounts.judge.is_signer
            && adjudge_call.accounts.escrow_account.judge_key
            == adjudge_call.accounts.judge.key) ==> adjudge_rejection(
            adjudge_call,
            order_code,
            status,
            now,
        ) == Some(ErrorCode::AuthorizationFailure),
        !(adjudge_partial_call.accounts.judge.is_signer
            && adjudge_partial_call.accounts.escrow_account.judge_key
            == adjudge_partial_call.accounts.judge.key) ==> adjudge_partial_rejection_with(
            adjudge_partial_call,
            order_code,
            amount,
            vault_ok,
            bump,
        ) == Some(ErrorCode::AuthorizationFailure),
        !(adjudge_for_buyer_call.accounts.judge.is_signer
            && adjudge_for_buyer_call.accounts.escrow_account.judge_key
            == adjudge_for_buyer_call.accounts.judge.key) ==> adjudge_for_buyer_rejection_with(
            adjudge_for_buyer_call,
            order_code,
            vault_ok,
            bump,
        ) == Some(ErrorCode::AuthorizationFailure),
        !(adjudge_for_seller_call.accounts.judge.is_signer
            && adjudge_for_seller_call.accounts.escrow_account.judge_key
            == adjudge_for_seller_call.accounts.judge.key) ==> adjudge_for_seller_rejection_with(
            adjudge_for_seller_call,
            order_code,
            vault_ok,
            bump,
        ) == Some(ErrorCode::AuthorizationFailure),
        !(update_trial_day_call.accounts.judge.is_signer
            && update_trial_day_call.accounts.escrow_account.judge_key
            == update_trial_day_call.accounts.judge.key) ==> update_trial_day_rejection(
            update_trial_day_call,
            order_code,
            trial_day,
        ) == Some(ErrorCode::AuthorizationFailure),
{
}

/// `shipping` is accepted only on a new order, `delivered` only on a shipped
/// one, and `exchange` only on a delivered one whose trial period is over.
pub proof fn law_status_gates(
    shipping_call: Context<Shipping>,
    delivered_call: Context<Delivered>,
    exchange_call: Context<Exchange>,
    order_code: u64,
    now: i64,
    vault_ok: bool,
    bump: Option<u8>,
)
    ensures
        shipping_rejection(shipping_call, order_code) is None
            ==> shipping_call.accounts.escrow_account.status == STATUS_NEW,
        delivered_rejection(delivered_call, order_code, now) is None
            ==> delivered_call.accounts.escrow_account.status == STATUS_SHIPPING,
        exchange_rejection_with(exchange_call, now, vault_ok, bump) is None ==> {
            &&& exchange_call.accounts.escrow_account.status == STATUS_DELIVERED
            &&& now >= exchange_call.accounts.escrow_account.delivery_time
                + exchange_call.accounts.escrow_account.trial_day * SECONDS_PER_DAY
        },
{
}

} // verus!
