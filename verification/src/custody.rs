//! Plain descriptions of the accounts an operation is given and of the
//! custody requests it hands back.

use vstd::prelude::*;
use crate::identity::Identity;

verus! {

/// A party to an operation: its key and whether it signed.
#[derive(Clone, Copy, Debug, PartialEq, Eq)]
pub struct AccountInfo {
    pub key: Identity,
    pub is_signer: bool,
}

/// A token account: its address and the amount it holds.
#[derive(Clone, Copy, Debug, PartialEq, Eq)]
pub struct TokenAccount {
    pub key: Identity,
    pub amount: u64,
}

/// The accounts of a token transfer.
#[derive(Clone, Copy, Debug, PartialEq, Eq)]
pub struct Transfer {
    pub from: Identity,
    pub to: Identity,
    pub authority: Identity,
}

/// The accounts of a change of a token account's owner.
#[derive(Clone, Copy, Debug, PartialEq, Eq)]
pub struct SetAuthority {
    pub account_or_mint: Identity,
    pub current_authority: Identity,
}

/// The accounts of the closing of a token account.
#[derive(Clone, Copy, Debug, PartialEq, Eq)]
pub struct CloseAccount {
    pub account: Identity,
    pub destination: Identity,
    pub authority: Identity,
}

/// One step that the host must carry out for an accepted operation, in the
/// same transaction. `signer_bump` is the bump seed of the derived authority
/// where that authority signs, `None` where a party signs.
#[derive(Clone, Copy, Debug, PartialEq, Eq)]
#[allow(inconsistent_fields)]
pub enum CustodyRequest {
    /// Hand the token account to `new_authority`.
    SetAuthority { accounts: SetAuthority, new_authority: Identity },
    /// Move `amount` tokens.
    Transfer { accounts: Transfer, amount: u64, signer_bump: Option<u8> },
    /// Close the token account.
    CloseAccount { accounts: CloseAccount, signer_bump: Option<u8> },
    /// Close the escrow record; what it was funded with goes to `destination`.
    CloseRecord { destination: Identity },
}

/// What an operation is called with: the program's own identity and the
/// accounts of the operation.
#[derive(Debug)]
pub struct Context<T> {
    pub program_id: Identity,
    pub accounts: T,
}

/// The requests of a partial release: `amount` leaves the vault for `to`,
/// signed by the derived authority.
pub open spec fn release_requests(
    accounts: Transfer,
    amount: u64,
    bump: u8,
) -> Seq<CustodyRequest> {
    seq![CustodyRequest::Transfer { accounts, amount, signer_bump: Some(bump) }]
}

/// The requests of a full settlement: the whole amount leaves the vault, then
/// the vault and the record are closed.
pub open spec fn settlement_requests(
    transfer: Transfer,
    close: CloseAccount,
    amount: u64,
    bump: u8,
) -> Seq<CustodyRequest> {
    seq![
        CustodyRequest::Transfer { accounts: transfer, amount, signer_bump: Some(bump) },
        CustodyRequest::CloseAccount { accounts: close, signer_bump: Some(bump) },
        CustodyRequest::CloseRecord { destination: close.destination },
    ]
}

/// The requests of a deposit: `amount` enters the vault, signed by the payer.
pub open spec fn deposit_requests(accounts: Transfer, amount: u64) -> Seq<CustodyRequest> {
    seq![CustodyRequest::Transfer { accounts, amount, signer_bump: None }]
}

/// Builds the requests of a partial release.
pub fn release(accounts: Transfer, amount: u64, bump: u8) -> (r: Vec<CustodyRequest>)
    ensures
        r@ == release_requests(accounts, amount, bump),
{
    let mut r: Vec<CustodyRequest> = Vec::new();
    r.push(CustodyRequest::Transfer { accounts, amount, signer_bump: Some(bump) });
    assert(r@ =~= release_requests(accounts, amount, bump));
    r
}

/// Builds the requests of a full settlement.
pub fn settlement(
    transfer: Transfer,
    close: CloseAccount,
    amount: u64,
    bump: u8,
) -> (r: Vec<CustodyRequest>)
    ensures
        r@ == settlement_requests(transfer, close, amount, bump),
{
    let mut r: Vec<CustodyRequest> = Vec::new();
    r.push(CustodyRequest::Transfer { accounts: transfer, amount, signer_bump: Some(bump) });
    r.push(CustodyRequest::CloseAccount { accounts: close, signer_bump: Some(bump) });
    r.push(CustodyRequest::CloseRecord { destination: close.destination });
    assert(r@ =~= settlement_requests(transfer, close, amount, bump));
    r
}

/// Builds the requests of a deposit.
pub fn deposit(accounts: Transfer, amount: u64) -> (r: Vec<CustodyRequest>)
    ensures
        r@ == deposit_requests(accounts, amount),
{
    let mut r: Vec<CustodyRequest> = Vec::new();
    r.push(CustodyRequest::Transfer { accounts, amount, signer_bump: None });
    assert(r@ =~= deposit_requests(accounts, amount));
    r
}

} // verus!
