//! Three-party escrow: a buyer deposits a token amount that is held in a
//! vault controlled by a keyless authority derived from the order code, and
//! released to the seller, returned to the buyer, or settled by a judge.
//!
//! Every operation validates its accounts, updates the escrow record and
//! returns the custody requests (transfer, set authority, close) that the
//! host must carry out in the same transaction.

pub mod identity;
pub mod seed;
pub mod authority;
pub mod record;
pub mod custody;
pub mod ledger;
pub mod accounts;
pub mod operations;
pub mod laws;

pub use crate::accounts::{
    Adjudge, AdjudgeForBuyer, AdjudgeForSeller, AdjudgePartial, Cancel, CancelPartial, ChargeMore,
    Delivered, Exchange, Initialize, Refund, RefundPartial, Shipping, UpdateTrialDay,
};
pub use crate::authority::{
    check_vault, check_vault_at, check_vault_authority, derive_authority, derive_vault,
    is_address, is_address_at, signer_bump, Authority,
};
pub use crate::custody::{
    AccountInfo, CloseAccount, Context, CustodyRequest, SetAuthority, TokenAccount, Transfer,
};
pub use crate::identity::Identity;
pub use crate::operations::{
    adjudge, adjudge_for_buyer, adjudge_for_buyer_with, adjudge_for_seller,
    adjudge_for_seller_with, adjudge_partial, adjudge_partial_with, cancel, cancel_partial,
    cancel_partial_with, cancel_with, charge_more, charge_more_with, delivered, exchange,
    exchange_with, initialize, initialize_with, refund, refund_partial, refund_partial_with,
    shipping, update_trial_day,
};
pub use crate::record::{
    ErrorCode, EscrowAccount, SECONDS_PER_DAY, STATUS_DELIVERED, STATUS_NEW, STATUS_SHIPPING,
};
pub use crate::seed::{escrow_seed, vault_seed};
