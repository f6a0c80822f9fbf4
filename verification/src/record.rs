//! The escrow record: the persistent state of one order.

use vstd::prelude::*;
use crate::identity::Identity;

verus! {

/// Status of an order that was placed and not yet shipped.
pub const STATUS_NEW: u8 = 0;

/// Status of an order that the seller has shipped.
pub const STATUS_SHIPPING: u8 = 1;

/// Status of an order that the buyer has received.
pub const STATUS_DELIVERED: u8 = 2;

/// Seconds in one day of the trial period.
pub const SECONDS_PER_DAY: i64 = 86400;

/// Why an operation was refused. A refused operation changes nothing.
#[derive(Clone, Copy, Debug, PartialEq, Eq, Structural)]
pub enum ErrorCode {
    /// The caller did not sign, or an account differs from the one on record.
    AuthorizationFailure,
    /// The record's status does not allow the operation.
    InvalidStateForOperation,
    /// The paying account holds less than the amount asked for.
    InsufficientFunds,
    /// The order is still in the trial period.
    InTrialDay,
    /// The order code differs from the record's, the status asked for is none
    /// of the three, or the amount is zero, would leave nothing in the vault,
    /// or would exceed what a vault can hold.
    ArgumentInvariantViolation,
}

impl ErrorCode {
    /// The message shown for the error.
    pub fn message(&self) -> (r: &'static str)
        ensures
            r@ == (match *self {
                ErrorCode::AuthorizationFailure => "The caller or an account does not match the order."@,
                ErrorCode::InvalidStateForOperation => "The order's status does not allow this."@,
                ErrorCode::InsufficientFunds => "The account does not hold the amount."@,
                ErrorCode::InTrialDay => "The order is still in the trial period."@,
                ErrorCode::ArgumentInvariantViolation => "The order code or the amount is not valid."@,
            }),
    {
        match self {
            ErrorCode::AuthorizationFailure => "The caller or an account does not match the order.",
            ErrorCode::InvalidStateForOperation => "The order's status does not allow this.",
            ErrorCode::InsufficientFunds => "The account does not hold the amount.",
            ErrorCode::InTrialDay => "The order is still in the trial period.",
            ErrorCode::ArgumentInvariantViolation => "The order code or the amount is not valid.",
        }
    }
}

/// The state of one order: its parties, the amount held in the vault, and how
/// far the order has come.
#[derive(Clone, Copy, Debug, PartialEq, Eq)]
pub struct EscrowAccount {
    pub buyer_key: Identity,
    pub buyer_deposit_token_account: Identity,
    pub seller_key: Identity,
    pub seller_receive_token_account: Identity,
    pub judge_key: Identity,
    /// The amount held in the vault.
    pub amount: u64,
    pub order_code: u64,
    /// `STATUS_NEW`, `STATUS_SHIPPING` or `STATUS_DELIVERED`.
    pub status: u8,
    /// When the record was created or the order last became delivered, in
    /// seconds.
    pub delivery_time: i64,
    /// Days after delivery during which the seller cannot claim the funds.
    pub trial_day: u16,
}

impl EscrowAccount {
    /// A record is well formed when its status is one of the three and it
    /// holds a positive amount.
    pub open spec fn wf(&self) -> bool {
        self.status <= STATUS_DELIVERED && self.amount > 0
    }

    /// The first second at which the seller may claim the funds.
    pub open spec fn trial_end(&self) -> int {
        self.delivery_time + self.trial_day * SECONDS_PER_DAY
    }

    /// Whether the trial period is still running at `now`.
    pub fn in_trial(&self, now: i64) -> (r: bool)
        ensures
            r == (now < self.trial_end()),
    {
        let window: i64 = (self.trial_day as i64) * SECONDS_PER_DAY;
        if self.delivery_time > i64::MAX - window {
            true
        } else {
            self.delivery_time + window > now
        }
    }
}

} // verus!
