//! The accounts of each operation, with the test that decides whether the
//! caller may perform it on the record.

use vstd::prelude::*;
use crate::custody::{AccountInfo, CloseAccount, SetAuthority, TokenAccount, Transfer};
use crate::record::EscrowAccount;

verus! {

/// The buyer and the buyer's token account are those on record.
pub open spec fn buyer_matches(
    e: EscrowAccount,
    buyer: AccountInfo,
    deposit: TokenAccount,
) -> bool {
    e.buyer_key == buyer.key && e.buyer_deposit_token_account == deposit.key
}

/// The seller and the seller's token account are those on record.
pub open spec fn seller_matches(
    e: EscrowAccount,
    seller: AccountInfo,
    receive: TokenAccount,
) -> bool {
    e.seller_key == seller.key && e.seller_receive_token_account == receive.key
}

/// Tests whether the buyer and the buyer's token account are those on record.
pub fn check_buyer(e: &EscrowAccount, buyer: &AccountInfo, deposit: &TokenAccount) -> (r: bool)
    ensures
        r == buyer_matches(*e, *buyer, *deposit),
{
    e.buyer_key == buyer.key && e.buyer_deposit_token_account == deposit.key
}

/// Tests whether the seller and the seller's token account are those on
/// record.
pub fn check_seller(e: &EscrowAccount, seller: &AccountInfo, receive: &TokenAccount) -> (r: bool)
    ensures
        r == seller_matches(*e, *seller, *receive),
{
    e.seller_key == seller.key && e.seller_receive_token_account == receive.key
}

/// The accounts of `initialize`: the buyer opens an order and funds its vault.
#[derive(Clone, Copy, Debug)]
pub struct Initialize {
    pub buyer: AccountInfo,
    pub seller: AccountInfo,
    pub judge: AccountInfo,
    pub vault_account: TokenAccount,
    pub buyer_deposit_token_account: TokenAccount,
    pub seller_receive_token_account: TokenAccount,
    pub escrow_account: EscrowAccount,
}

impl Initialize {
    /// The buyer signed.
    pub open spec fn authorized(&self) -> bool {
        self.buyer.is_signer
    }

    /// Tests `authorized`.
    pub fn is_authorized(&self) -> (r: bool)
        ensures
            r == self.authorized(),
    {
        self.buyer.is_signer
    }

    /// The transfer from the buyer's token account into the vault, signed by the buyer.
    pub open spec fn transfer_to_pda(&self) -> Transfer {
        Transfer {
            from: self.buyer_deposit_token_account.key,
            to: self.vault_account.key,
            authority: self.buyer.key,
        }
    }

    /// Builds `transfer_to_pda`.
    pub fn into_transfer_to_pda_context(&self) -> (r: Transfer)
        ensures
            r == self.transfer_to_pda(),
    {
        Transfer {
            from: self.buyer_deposit_token_account.key,
            to: self.vault_account.key,
            authority: self.buyer.key,
        }
    }

    /// The handing over of the vault by the buyer, its first owner.
    pub open spec fn set_authority(&self) -> SetAuthority {
        SetAuthority {
            account_or_mint: self.vault_account.key,
            current_authority: self.buyer.key,
        }
    }

    /// Builds `set_authority`.
    pub fn into_set_authority_context(&self) -> (r: SetAuthority)
        ensures
            r == self.set_authority(),
    {
        SetAuthority {
            account_or_mint: self.vault_account.key,
            current_authority: self.buyer.key,
        }
    }
}

/// The accounts of `cancel`: the buyer takes back the whole amount of a new order.
#[derive(Clone, Copy, Debug)]
pub struct Cancel {
    pub buyer: AccountInfo,
    pub buyer_deposit_token_account: TokenAccount,
    pub vault_account: TokenAccount,
    pub vault_authority: AccountInfo,
    pub escrow_account: EscrowAccount,
}

impl Cancel {
    /// The buyer signed, and the buyer and the buyer's token account are those on
    /// record.
    pub open spec fn authorized(&self) -> bool {
        self.buyer.is_signer
        && buyer_matches(self.escrow_account, self.buyer, self.buyer_deposit_token_account)
    }

    /// Tests `authorized`.
    pub fn is_authorized(&self) -> (r: bool)
        ensures
            r == self.authorized(),
    {
        self.buyer.is_signer
        && check_buyer(&self.escrow_account, &self.buyer, &self.buyer_deposit_token_account)
    }

    /// The transfer from the vault to the buyer's token account, signed by the vault's authority.
    pub open spec fn transfer_to_buyer(&self) -> Transfer {
        Transfer {
            from: self.vault_account.key,
            to: self.buyer_deposit_token_account.key,
            authority: self.vault_authority.key,
        }
    }

    /// Builds `transfer_to_buyer`.
    pub fn into_transfer_to_buyer_context(&self) -> (r: Transfer)
        ensures
            r == self.transfer_to_buyer(),
    {
        Transfer {
            from: self.vault_account.key,
            to: self.buyer_deposit_token_account.key,
            authority: self.vault_authority.key,
        }
    }

    /// The closing of the vault; what funded the account goes to the buyer.
    pub open spec fn close_vault(&self) -> CloseAccount {
        CloseAccount {
            account: self.vault_account.key,
            destination: self.buyer.key,
            authority: self.vault_authority.key,
        }
    }

    /// Builds `close_vault`.
    pub fn into_close_contest(&self) -> (r: CloseAccount)
        ensures
            r == self.close_vault(),
    {
        CloseAccount {
            account: self.vault_account.key,
            destination: self.buyer.key,
            authority: self.vault_authority.key,
        }
    }
}

/// The accounts of `cancel_partial`: the buyer takes back part of the amount of a new order.
#[derive(Clone, Copy, Debug)]
pub struct CancelPartial {
    pub buyer: AccountInfo,
    pub buyer_deposit_token_account: TokenAccount,
    pub vault_account: TokenAccount,
    pub vault_authority: AccountInfo,
    pub escrow_account: EscrowAccount,
}

impl CancelPartial {
    /// The buyer signed, and the buyer and the buyer's token account are those on
    /// record.
    pub open spec fn authorized(&self) -> bool {
        self.buyer.is_signer
        && buyer_matches(self.escrow_account, self.buyer, self.buyer_deposit_token_account)
    }

    /// Tests `authorized`.
    pub fn is_authorized(&self) -> (r: bool)
        ensures
            r == self.authorized(),
    {
        self.buyer.is_signer
        && check_buyer(&self.escrow_account, &self.buyer, &self.buyer_deposit_token_account)
    }

    /// The transfer from the vault to the buyer's token account, signed by the vault's authority.
    pub open spec fn transfer_to_buyer(&self) -> Transfer {
        Transfer {
            from: self.vault_account.key,
            to: self.buyer_deposit_token_account.key,
            authority: self.vault_authority.key,
        }
    }

    /// Builds `transfer_to_buyer`.
    pub fn into_transfer_to_buyer_context(&self) -> (r: Transfer)
        ensures
            r == self.transfer_to_buyer(),
    {
        Transfer {
            from: self.vault_account.key,
            to: self.buyer_deposit_token_account.key,
            authority: self.vault_authority.key,
        }
    }
}

/// The accounts of `charge_more`: the buyer adds to the amount held.
#[derive(Clone, Copy, Debug)]
pub struct ChargeMore {
    pub buyer: AccountInfo,
    pub buyer_deposit_token_account: TokenAccount,
    pub seller: AccountInfo,
    pub seller_receive_token_account: TokenAccount,
    pub escrow_account: EscrowAccount,
    pub vault_account: TokenAccount,
    pub vault_authority: AccountInfo,
}

impl ChargeMore {
    /// The buyer signed, and the buyer, the seller and their token accounts are
    /// those on record.
    pub open spec fn authorized(&self) -> bool {
        self.buyer.is_signer
        && buyer_matches(self.escrow_account, self.buyer, self.buyer_deposit_token_account)
        && seller_matches(self.escrow_account, self.seller, self.seller_receive_token_account)
    }

    /// Tests `authorized`.
    pub fn is_authorized(&self) -> (r: bool)
        ensures
            r == self.authorized(),
    {
        self.buyer.is_signer
        && check_buyer(&self.escrow_account, &self.buyer, &self.buyer_deposit_token_account)
        && check_seller(&self.escrow_account, &self.seller, &self.seller_receive_token_account)
    }

    /// The transfer from the buyer's token account into the vault, signed by the buyer.
    pub open spec fn transfer_to_pda(&self) -> Transfer {
        Transfer {
            from: self.buyer_deposit_token_account.key,
            to: self.vault_account.key,
            authority: self.buyer.key,
        }
    }

    /// Builds `transfer_to_pda`.
    pub fn into_transfer_to_pda_context(&self) -> (r: Transfer)
        ensures
            r == self.transfer_to_pda(),
    {
        Transfer {
            from: self.buyer_deposit_token_account.key,
            to: self.vault_account.key,
            authority: self.buyer.key,
        }
    }
}

/// The accounts of `shipping`: the seller reports the order shipped.
#[derive(Clone, Copy, Debug)]
pub struct Shipping {
    pub buyer: AccountInfo,
    pub buyer_deposit_token_account: TokenAccount,
    pub seller: AccountInfo,
    pub seller_receive_token_account: TokenAccount,
    pub escrow_account: EscrowAccount,
}

impl Shipping {
    /// The seller signed, and the buyer, the seller and their token accounts are
    /// those on record.
    pub open spec fn authorized(&self) -> bool {
        self.seller.is_signer
        && buyer_matches(self.escrow_account, self.buyer, self.buyer_deposit_token_account)
        && seller_matches(self.escrow_account, self.seller, self.seller_receive_token_account)
    }

    /// Tests `authorized`.
    pub fn is_authorized(&self) -> (r: bool)
        ensures
            r == self.authorized(),
    {
        self.seller.is_signer
        && check_buyer(&self.escrow_account, &self.buyer, &self.buyer_deposit_token_account)
        && check_seller(&self.escrow_account, &self.seller, &self.seller_receive_token_account)
    }
}

/// The accounts of `delivered`: the buyer reports the order received.
#[derive(Clone, Copy, Debug)]
pub struct Delivered {
    pub buyer: AccountInfo,
    pub buyer_deposit_token_account: TokenAccount,
    pub seller: AccountInfo,
    pub seller_receive_token_account: TokenAccount,
    pub escrow_account: EscrowAccount,
}

impl Delivered {
    /// The buyer signed, and the buyer, the seller and their token accounts are
    /// those on record.
    pub open spec fn authorized(&self) -> bool {
        self.buyer.is_signer
        && buyer_matches(self.escrow_account, self.buyer, self.buyer_deposit_token_account)
        && seller_matches(self.escrow_account, self.seller, self.seller_receive_token_account)
    }

    /// Tests `authorized`.
    pub fn is_authorized(&self) -> (r: bool)
        ensures
            r == self.authorized(),
    {
        self.buyer.is_signer
        && check_buyer(&self.escrow_account, &self.buyer, &self.buyer_deposit_token_account)
        && check_seller(&self.escrow_account, &self.seller, &self.seller_receive_token_account)
    }
}

/// The accounts of `refund`: the seller takes a shipped or delivered order back to new.
#[derive(Clone, Copy, Debug)]
pub struct Refund {
    pub buyer: AccountInfo,
    pub buyer_deposit_token_account: TokenAccount,
    pub seller: AccountInfo,
    pub seller_receive_token_account: TokenAccount,
    pub escrow_account: EscrowAccount,
}

impl Refund {
    /// The seller signed, and the buyer, the seller and their token accounts are
    /// those on record.
    pub open spec fn authorized(&self) -> bool {
        self.seller.is_signer
        && buyer_matches(self.escrow_account, self.buyer, self.buyer_deposit_token_account)
        && seller_matches(self.escrow_account, self.seller, self.seller_receive_token_account)
    }

    /// Tests `authorized`.
    pub fn is_authorized(&self) -> (r: bool)
        ensures
            r == self.authorized(),
    {
        self.seller.is_signer
        && check_buyer(&self.escrow_account, &self.buyer, &self.buyer_deposit_token_account)
        && check_seller(&self.escrow_account, &self.seller, &self.seller_receive_token_account)
    }
}

/// The accounts of `refund_partial`: the seller returns part of the amount to the buyer.
#[derive(Clone, Copy, Debug)]
pub struct RefundPartial {
    pub buyer: AccountInfo,
    pub buyer_deposit_token_account: TokenAccount,
    pub seller: AccountInfo,
    pub seller_receive_token_account: TokenAccount,
    pub escrow_account: EscrowAccount,
    pub vault_account: TokenAccount,
    pub vault_authority: AccountInfo,
}

impl RefundPartial {
    /// The seller signed, and the buyer, the seller and their token accounts are
    /// those on record.
    pub open spec fn authorized(&self) -> bool {
        self.seller.is_signer
        && buyer_matches(self.escrow_account, self.buyer, self.buyer_deposit_token_account)
        && seller_matches(self.escrow_account, self.seller, self.seller_receive_token_account)
    }

    /// Tests `authorized`.
    pub fn is_authorized(&self) -> (r: bool)
        ensures
            r == self.authorized(),
    {
        self.seller.is_signer
        && check_buyer(&self.escrow_account, &self.buyer, &self.buyer_deposit_token_account)
        && check_seller(&self.escrow_account, &self.seller, &self.seller_receive_token_account)
    }

    /// The transfer from the vault to the buyer's token account, signed by the vault's authority.
    pub open spec fn transfer_to_buyer(&self) -> Transfer {
        Transfer {
            from: self.vault_account.key,
            to: self.buyer_deposit_token_account.key,
            authority: self.vault_authority.key,
        }
    }

    /// Builds `transfer_to_buyer`.
    pub fn into_transfer_to_buyer_context(&self) -> (r: Transfer)
        ensures
            r == self.transfer_to_buyer(),
    {
        Transfer {
            from: self.vault_account.key,
            to: self.buyer_deposit_token_account.key,
            authority: self.vault_authority.key,
        }
    }
}

/// The accounts of `exchange`: the seller claims the amount of a delivered order.
#[derive(Clone, Copy, Debug)]
pub struct Exchange {
    pub buyer: AccountInfo,
    pub buyer_deposit_token_account: TokenAccount,
    pub seller: AccountInfo,
    pub seller_receive_token_account: TokenAccount,
    pub escrow_account: EscrowAccount,
    pub vault_account: TokenAccount,
    pub vault_authority: AccountInfo,
}

impl Exchange {
    /// The seller signed, and the buyer, the seller and their token accounts are
    /// those on record.
    pub open spec fn authorized(&self) -> bool {
        self.seller.is_signer
        && buyer_matches(self.escrow_account, self.buyer, self.buyer_deposit_token_account)
        && seller_matches(self.escrow_account, self.seller, self.seller_receive_token_account)
    }

    /// Tests `authorized`.
    pub fn is_authorized(&self) -> (r: bool)
        ensures
            r == self.authorized(),
    {
        self.seller.is_signer
        && check_buyer(&self.escrow_account, &self.buyer, &self.buyer_deposit_token_account)
        && check_seller(&self.escrow_account, &self.seller, &self.seller_receive_token_account)
    }

    /// The transfer from the vault to the seller's token account, signed by the vault's authority.
    pub open spec fn transfer_to_seller(&self) -> Transfer {
        Transfer {
            from: self.vault_account.key,
            to: self.seller_receive_token_account.key,
            authority: self.vault_authority.key,
        }
    }

    /// Builds `transfer_to_seller`.
    pub fn into_transfer_to_seller_context(&self) -> (r: Transfer)
        ensures
            r == self.transfer_to_seller(),
    {
        Transfer {
            from: self.vault_account.key,
            to: self.seller_receive_token_account.key,
            authority: self.vault_authority.key,
        }
    }

    /// The closing of the vault; what funded the account goes to the buyer.
    pub open spec fn close_vault(&self) -> CloseAccount {
        CloseAccount {
            account: self.vault_account.key,
            destination: self.buyer.key,
            authority: self.vault_authority.key,
        }
    }

    /// Builds `close_vault`.
    pub fn into_close_context(&self) -> (r: CloseAccount)
        ensures
            r == self.close_vault(),
    {
        CloseAccount {
            account: self.vault_account.key,
            destination: self.buyer.key,
            authority: self.vault_authority.key,
        }
    }
}

/// The accounts of `adjudge`: the judge sets the status of the order.
#[derive(Clone, Copy, Debug)]
pub struct Adjudge {
    pub judge: AccountInfo,
    pub buyer: AccountInfo,
    pub buyer_deposit_token_account: TokenAccount,
    pub seller: AccountInfo,
    pub seller_receive_token_account: TokenAccount,
    pub escrow_account: EscrowAccount,
}

impl Adjudge {
    /// The judge signed and is the judge on record, and the buyer, the seller and
    /// their token accounts are those on record.
    pub open spec fn authorized(&self) -> bool {
        self.judge.is_signer
        && buyer_matches(self.escrow_account, self.buyer, self.buyer_deposit_token_account)
        && seller_matches(self.escrow_account, self.seller, self.seller_receive_token_account)
        && self.escrow_account.judge_key == self.judge.key
    }

    /// Tests `authorized`.
    pub fn is_authorized(&self) -> (r: bool)
        ensures
            r == self.authorized(),
    {
        self.judge.is_signer
        && check_buyer(&self.escrow_account, &self.buyer, &self.buyer_deposit_token_account)
        && check_seller(&self.escrow_account, &self.seller, &self.seller_receive_token_account)
        && self.escrow_account.judge_key == self.judge.key
    }
}

/// The accounts of `adjudge_partial`: the judge returns part of the amount to the buyer.
#[derive(Clone, Copy, Debug)]
pub struct AdjudgePartial {
    pub judge: AccountInfo,
    pub buyer: AccountInfo,
    pub buyer_deposit_token_account: TokenAccount,
    pub seller: AccountInfo,
    pub seller_receive_token_account: TokenAccount,
    pub escrow_account: EscrowAccount,
    pub vault_account: TokenAccount,
    pub vault_authority: AccountInfo,
}

impl AdjudgePartial {
    /// The judge signed and is the judge on record, and the buyer, the seller and
    /// their token accounts are those on record.
    pub open spec fn authorized(&self) -> bool {
        self.judge.is_signer
        && buyer_matches(self.escrow_account, self.buyer, self.buyer_deposit_token_account)
        && seller_matches(self.escrow_account, self.seller, self.seller_receive_token_account)
        && self.escrow_account.judge_key == self.judge.key
    }

    /// Tests `authorized`.
    pub fn is_authorized(&self) -> (r: bool)
        ensures
            r == self.authorized(),
    {
        self.judge.is_signer
        && check_buyer(&self.escrow_account, &self.buyer, &self.buyer_deposit_token_account)
        && check_seller(&self.escrow_account, &self.seller, &self.seller_receive_token_account)
        && self.escrow_account.judge_key == self.judge.key
    }

    /// The transfer from the vault to the buyer's token account, signed by the vault's authority.
    pub open spec fn transfer_to_buyer(&self) -> Transfer {
        Transfer {
            from: self.vault_account.key,
            to: self.buyer_deposit_token_account.key,
            authority: self.vault_authority.key,
        }
    }

    /// Builds `transfer_to_buyer`.
    pub fn into_transfer_to_buyer_context(&self) -> (r: Transfer)
        ensures
            r == self.transfer_to_buyer(),
    {
        Transfer {
            from: self.vault_account.key,
            to: self.buyer_deposit_token_account.key,
            authority: self.vault_authority.key,
        }
    }
}

/// The accounts of `adjudge_for_buyer`: the judge returns the whole amount to the buyer.
#[derive(Clone, Copy, Debug)]
pub struct AdjudgeForBuyer {
    pub judge: AccountInfo,
    pub buyer: AccountInfo,
    pub buyer_deposit_token_account: TokenAccount,
    pub seller: AccountInfo,
    pub seller_receive_token_account: TokenAccount,
    pub escrow_account: EscrowAccount,
    pub vault_account: TokenAccount,
    pub vault_authority: AccountInfo,
}

impl AdjudgeForBuyer {
    /// The judge signed and is the judge on record, and the buyer, the seller and
    /// their token accounts are those on record.
    pub open spec fn authorized(&self) -> bool {
        self.judge.is_signer
        && buyer_matches(self.escrow_account, self.buyer, self.buyer_deposit_token_account)
        && seller_matches(self.escrow_account, self.seller, self.seller_receive_token_account)
        && self.escrow_account.judge_key == self.judge.key
    }

    /// Tests `authorized`.
    pub fn is_authorized(&self) -> (r: bool)
        ensures
            r == self.authorized(),
    {
        self.judge.is_signer
        && check_buyer(&self.escrow_account, &self.buyer, &self.buyer_deposit_token_account)
        && check_seller(&self.escrow_account, &self.seller, &self.seller_receive_token_account)
        && self.escrow_account.judge_key == self.judge.key
    }

    /// The transfer from the vault to the buyer's token account, signed by the vault's authority.
    pub open spec fn transfer_to_buyer(&self) -> Transfer {
        Transfer {
            from: self.vault_account.key,
            to: self.buyer_deposit_token_account.key,
            authority: self.vault_authority.key,
        }
    }

    /// Builds `transfer_to_buyer`.
    pub fn into_transfer_to_buyer_context(&self) -> (r: Transfer)
        ensures
            r == self.transfer_to_buyer(),
    {
        Transfer {
            from: self.vault_account.key,
            to: self.buyer_deposit_token_account.key,
            authority: self.vault_authority.key,
        }
    }

    /// The closing of the vault; what funded the account goes to the buyer.
    pub open spec fn close_vault(&self) -> CloseAccount {
        CloseAccount {
            account: self.vault_account.key,
            destination: self.buyer.key,
            authority: self.vault_authority.key,
        }
    }

    /// Builds `close_vault`.
    pub fn into_close_contest(&self) -> (r: CloseAccount)
        ensures
            r == self.close_vault(),
    {
        CloseAccount {
            account: self.vault_account.key,
            destination: self.buyer.key,
            authority: self.vault_authority.key,
        }
    }
}

/// The accounts of `adjudge_for_seller`: the judge pays the whole amount to the seller.
#[derive(Clone, Copy, Debug)]
pub struct AdjudgeForSeller {
    pub judge: AccountInfo,
    pub buyer: AccountInfo,
    pub buyer_deposit_token_account: TokenAccount,
    pub seller: AccountInfo,
    pub seller_receive_token_account: TokenAccount,
    pub escrow_account: EscrowAccount,
    pub vault_account: TokenAccount,
    pub vault_authority: AccountInfo,
}

impl AdjudgeForSeller {
    /// The judge signed and is the judge on record, and the buyer, the seller and
    /// their token accounts are those on record.
    pub open spec fn authorized(&self) -> bool {
        self.judge.is_signer
        && buyer_matches(self.escrow_account, self.buyer, self.buyer_deposit_token_account)
        && seller_matches(self.escrow_account, self.seller, self.seller_receive_token_account)
        && self.escrow_account.judge_key == self.judge.key
    }

    /// Tests `authorized`.
    pub fn is_authorized(&self) -> (r: bool)
        ensures
            r == self.authorized(),
    {
        self.judge.is_signer
        && check_buyer(&self.escrow_account, &self.buyer, &self.buyer_deposit_token_account)
        && check_seller(&self.escrow_account, &self.seller, &self.seller_receive_token_account)
        && self.escrow_account.judge_key == self.judge.key
    }

    /// The transfer from the vault to the seller's token account, signed by the vault's authority.
    pub open spec fn transfer_to_seller(&self) -> Transfer {
        Transfer {
            from: self.vault_account.key,
            to: self.seller_receive_token_account.key,
            authority: self.vault_authority.key,
        }
    }

    /// Builds `transfer_to_seller`.
    pub fn into_transfer_to_seller_context(&self) -> (r: Transfer)
        ensures
            r == self.transfer_to_seller(),
    {
        Transfer {
            from: self.vault_account.key,
            to: self.seller_receive_token_account.key,
            authority: self.vault_authority.key,
        }
    }

    /// The closing of the vault; what funded the account goes to the buyer.
    pub open spec fn close_vault(&self) -> CloseAccount {
        CloseAccount {
            account: self.vault_account.key,
            destination: self.buyer.key,
            authority: self.vault_authority.key,
        }
    }

    /// Builds `close_vault`.
    pub fn into_close_context(&self) -> (r: CloseAccount)
        ensures
            r == self.close_vault(),
    {
        CloseAccount {
            account: self.vault_account.key,
            destination: self.buyer.key,
            authority: self.vault_authority.key,
        }
    }
}

/// The accounts of `update_trial_day`: the judge sets the length of the trial period.
#[derive(Clone, Copy, Debug)]
pub struct UpdateTrialDay {
    pub judge: AccountInfo,
    pub buyer: AccountInfo,
    pub buyer_deposit_token_account: TokenAccount,
    pub seller: AccountInfo,
    pub seller_receive_token_account: TokenAccount,
    pub escrow_account: EscrowAccount,
}

impl UpdateTrialDay {
    /// The judge signed and is the judge on record, and the buyer, the seller and
    /// their token accounts are those on record.
    pub open spec fn authorized(&self) -> bool {
        self.judge.is_signer
        && buyer_matches(self.escrow_account, self.buyer, self.buyer_deposit_token_account)
        && seller_matches(self.escrow_account, self.seller, self.seller_receive_token_account)
        && self.escrow_account.judge_key == self.judge.key
    }

    /// Tests `authorized`.
    pub fn is_authorized(&self) -> (r: bool)
        ensures
            r == self.authorized(),
    {
        self.judge.is_signer
        && check_buyer(&self.escrow_account, &self.buyer, &self.buyer_deposit_token_account)
        && check_seller(&self.escrow_account, &self.seller, &self.seller_receive_token_account)
        && self.escrow_account.judge_key == self.judge.key
    }
}

} // verus!
