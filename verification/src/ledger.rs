//! A model of the token ledger: what the custody requests of an accepted
//! operation do to the balances once the host has carried them out.

use vstd::prelude::*;
use crate::custody::{
    deposit_requests, release_requests, settlement_requests, CloseAccount, CustodyRequest,
    Transfer,
};
use crate::identity::Identity;
use crate::record::EscrowAccount;

verus! {

/// The balances after `amount` went from `from` to `to`.
pub open spec fn moved(
    balances: Map<Identity, nat>,
    from: Identity,
    to: Identity,
    amount: nat,
) -> Map<Identity, nat> {
    balances.insert(from, (balances[from] - amount) as nat).insert(
        to,
        (balances[to] + amount) as nat,
    )
}

/// The balances after one request. A transfer moves its amount between two
/// different open accounts where the source holds it; closing removes an
/// empty account; a request that the ledger would refuse changes nothing.
pub open spec fn apply(
    balances: Map<Identity, nat>,
    request: CustodyRequest,
) -> Map<Identity, nat> {
    match request {
        CustodyRequest::Transfer { accounts, amount, signer_bump } => {
            if balances.contains_key(accounts.from) && balances.contains_key(accounts.to)
                && accounts.from != accounts.to && balances[accounts.from] >= amount {
                moved(balances, accounts.from, accounts.to, amount as nat)
            } else {
                balances
            }
        },
        CustodyRequest::CloseAccount { accounts, signer_bump } => {
            if balances.contains_key(accounts.account) && balances[accounts.account] == 0 {
                balances.remove(accounts.account)
            } else {
                balances
            }
        },
        CustodyRequest::SetAuthority { accounts, new_authority } => balances,
        CustodyRequest::CloseRecord { destination } => balances,
    }
}

/// The balances after the requests were carried out in order.
pub open spec fn settle(
    balances: Map<Identity, nat>,
    requests: Seq<CustodyRequest>,
) -> Map<Identity, nat>
    decreases requests.len(),
{
    if requests.len() == 0 {
        balances
    } else {
        apply(settle(balances, requests.drop_last()), requests.last())
    }
}

/// The vault is open and holds exactly what the record says.
pub open spec fn in_custody(
    balances: Map<Identity, nat>,
    vault: Identity,
    record: EscrowAccount,
) -> bool {
    balances.contains_key(vault) && balances[vault] == record.amount
}

/// Carrying out one request.
pub proof fn lemma_settle_one(balances: Map<Identity, nat>, a: CustodyRequest)
    ensures
        settle(balances, seq![a]) == apply(balances, a),
{
    reveal_with_fuel(settle, 2);
    assert(seq![a].drop_last() =~= Seq::<CustodyRequest>::empty());
}

/// Carrying out two requests.
pub proof fn lemma_settle_two(balances: Map<Identity, nat>, a: CustodyRequest, b: CustodyRequest)
    ensures
        settle(balances, seq![a, b]) == apply(apply(balances, a), b),
{
    lemma_settle_one(balances, a);
    assert(seq![a, b].drop_last() =~= seq![a]);
}

/// Carrying out three requests.
pub proof fn lemma_settle_three(
    balances: Map<Identity, nat>,
    a: CustodyRequest,
    b: CustodyRequest,
    c: CustodyRequest,
)
    ensures
        settle(balances, seq![a, b, c]) == apply(apply(apply(balances, a), b), c),
{
    lemma_settle_two(balances, a, b);
    assert(seq![a, b, c].drop_last() =~= seq![a, b]);
}

/// A partial release takes `amount` out of the vault and adds it to the
/// receiving account; every other balance stays.
pub proof fn lemma_release(balances: Map<Identity, nat>, accounts: Transfer, amount: u64, bump: u8)
    requires
        balances.contains_key(accounts.from),
        balances.contains_key(accounts.to),
        accounts.from != accounts.to,
        balances[accounts.from] >= amount,
    ensures
        settle(balances, release_requests(accounts, amount, bump)) == moved(
            balances,
            accounts.from,
            accounts.to,
            amount as nat,
        ),
{
    lemma_settle_one(
        balances,
        CustodyRequest::Transfer { accounts, amount, signer_bump: Some(bump) },
    );
}

/// A deposit takes `amount` out of the paying account and adds it to the
/// vault; every other balance stays.
pub proof fn lemma_deposit(balances: Map<Identity, nat>, accounts: Transfer, amount: u64)
    requires
        balances.contains_key(accounts.from),
        balances.contains_key(accounts.to),
        accounts.from != accounts.to,
        balances[accounts.from] >= amount,
    ensures
        settle(balances, deposit_requests(accounts, amount)) == moved(
            balances,
            accounts.from,
            accounts.to,
            amount as nat,
        ),
{
    lemma_settle_one(balances, CustodyRequest::Transfer { accounts, amount, signer_bump: None });
}

/// A full settlement of a vault that holds `amount` adds `amount` to the
/// receiving account and removes the vault; every other balance stays.
pub proof fn lemma_settlement(
    balances: Map<Identity, nat>,
    transfer: Transfer,
    close: CloseAccount,
    amount: u64,
    bump: u8,
)
    requires
        balances.contains_key(transfer.from),
        balances.contains_key(transfer.to),
        transfer.from != transfer.to,
        balances[transfer.from] == amount,
        close.account == transfer.from,
    ensures
        settle(balances, settlement_requests(transfer, close, amount, bump)) == moved(
            balances,
            transfer.from,
            transfer.to,
            amount as nat,
        ).remove(transfer.from),
        !settle(balances, settlement_requests(transfer, close, amount, bump)).contains_key(
            transfer.from,
        ),
        settle(balances, settlement_requests(transfer, close, amount, bump))[transfer.to]
            == balances[transfer.to] + amount,
{
    lemma_settle_three(
        balances,
        CustodyRequest::Transfer { accounts: transfer, amount, signer_bump: Some(bump) },
        CustodyRequest::CloseAccount { accounts: close, signer_bump: Some(bump) },
        CustodyRequest::CloseRecord { destination: close.destination },
    );
}

} // verus!
