use anchor_lang::prelude::Pubkey;
use std::collections::BTreeMap;
use lambda_escrow::{
    adjudge, adjudge_for_buyer, adjudge_for_buyer_with, adjudge_for_seller,
    adjudge_for_seller_with, adjudge_partial, adjudge_partial_with, cancel, cancel_partial,
    cancel_partial_with, cancel_with, charge_more, charge_more_with, derive_vault, exchange_with,
    check_vault_at, initialize_with, is_address, is_address_at, refund_partial_with,
    signer_bump, Authority, check_vault, check_vault_authority, delivered, derive_authority, escrow_seed, exchange,
    initialize, refund, refund_partial, shipping, update_trial_day, AccountInfo, Adjudge,
    AdjudgeForBuyer, AdjudgeForSeller, AdjudgePartial, Cancel, CancelPartial, ChargeMore,
    CloseAccount, Context, CustodyRequest, Delivered, ErrorCode, EscrowAccount, Exchange,
    Identity, Initialize, Refund, RefundPartial, SetAuthority, Shipping, TokenAccount, Transfer,
    UpdateTrialDay, vault_seed, STATUS_DELIVERED, STATUS_NEW, STATUS_SHIPPING,
};

fn key(n: u8) -> Identity {
    Identity::new([n; 32])
}

fn program() -> Identity {
    key(9)
}

fn party(n: u8, is_signer: bool) -> AccountInfo {
    AccountInfo { key: key(n), is_signer }
}

fn tokens(n: u8, amount: u64) -> TokenAccount {
    TokenAccount { key: key(n), amount }
}

const BUYER: u8 = 1;
const BUYER_TOKENS: u8 = 2;
const SELLER: u8 = 3;
const SELLER_TOKENS: u8 = 4;
const JUDGE: u8 = 5;

fn blank() -> EscrowAccount {
    EscrowAccount {
        buyer_key: key(0),
        buyer_deposit_token_account: key(0),
        seller_key: key(0),
        seller_receive_token_account: key(0),
        judge_key: key(0),
        amount: 0,
        order_code: 0,
        status: 0,
        delivery_time: 0,
        trial_day: 0,
    }
}

fn vault(order_code: u64) -> Identity {
    let seed = format!("token-seed-{}", order_code);
    let (address, _) =
        Pubkey::find_program_address(&[seed.as_bytes()], &Pubkey::new_from_array([9; 32]));
    Identity::new(address.to_bytes())
}

fn vault_bump(order_code: u64) -> u8 {
    let seed = format!("token-seed-{}", order_code);
    Pubkey::find_program_address(&[seed.as_bytes()], &Pubkey::new_from_array([9; 32])).1
}

fn vault_tokens(e: &EscrowAccount) -> TokenAccount {
    TokenAccount { key: vault(e.order_code), amount: e.amount }
}

fn authority(order_code: u64) -> (AccountInfo, u8) {
    let a = derive_authority(order_code, &program()).unwrap();
    (AccountInfo { key: a.key, is_signer: false }, a.bump)
}

fn opened(amount: u64, order_code: u64, trial_day: u16, now: i64) -> EscrowAccount {
    let mut ctx = Context {
        program_id: program(),
        accounts: Initialize {
            buyer: party(BUYER, true),
            seller: party(SELLER, false),
            judge: party(JUDGE, false),
            vault_account: TokenAccount { key: vault(order_code), amount: 0 },
            buyer_deposit_token_account: tokens(BUYER_TOKENS, 5000),
            seller_receive_token_account: tokens(SELLER_TOKENS, 0),
            escrow_account: blank(),
        },
    };
    initialize(&mut ctx, vault_bump(order_code), amount, order_code, trial_day, now).unwrap();
    ctx.accounts.escrow_account
}

fn shipping_ctx(e: EscrowAccount) -> Context<Shipping> {
    Context {
        program_id: program(),
        accounts: Shipping {
            buyer: party(BUYER, false),
            buyer_deposit_token_account: tokens(BUYER_TOKENS, 0),
            seller: party(SELLER, true),
            seller_receive_token_account: tokens(SELLER_TOKENS, 0),
            escrow_account: e,
        },
    }
}

fn delivered_ctx(e: EscrowAccount) -> Context<Delivered> {
    Context {
        program_id: program(),
        accounts: Delivered {
            buyer: party(BUYER, true),
            buyer_deposit_token_account: tokens(BUYER_TOKENS, 0),
            seller: party(SELLER, false),
            seller_receive_token_account: tokens(SELLER_TOKENS, 0),
            escrow_account: e,
        },
    }
}

fn refund_ctx(e: EscrowAccount) -> Context<Refund> {
    Context {
        program_id: program(),
        accounts: Refund {
            buyer: party(BUYER, false),
            buyer_deposit_token_account: tokens(BUYER_TOKENS, 0),
            seller: party(SELLER, true),
            seller_receive_token_account: tokens(SELLER_TOKENS, 0),
            escrow_account: e,
        },
    }
}

fn exchange_ctx(e: EscrowAccount) -> Context<Exchange> {
    Context {
        program_id: program(),
        accounts: Exchange {
            buyer: party(BUYER, false),
            buyer_deposit_token_account: tokens(BUYER_TOKENS, 0),
            seller: party(SELLER, true),
            seller_receive_token_account: tokens(SELLER_TOKENS, 0),
            escrow_account: e,
            vault_account: vault_tokens(&e),
            vault_authority: authority(e.order_code).0,
        },
    }
}

fn cancel_ctx(e: EscrowAccount) -> Context<Cancel> {
    Context {
        program_id: program(),
        accounts: Cancel {
            buyer: party(BUYER, true),
            buyer_deposit_token_account: tokens(BUYER_TOKENS, 0),
            vault_account: vault_tokens(&e),
            vault_authority: authority(e.order_code).0,
            escrow_account: e,
        },
    }
}

fn cancel_partial_ctx(e: EscrowAccount) -> Context<CancelPartial> {
    Context {
        program_id: program(),
        accounts: CancelPartial {
            buyer: party(BUYER, true),
            buyer_deposit_token_account: tokens(BUYER_TOKENS, 0),
            vault_account: vault_tokens(&e),
            vault_authority: authority(e.order_code).0,
            escrow_account: e,
        },
    }
}

fn charge_more_ctx(e: EscrowAccount, buyer_holds: u64) -> Context<ChargeMore> {
    Context {
        program_id: program(),
        accounts: ChargeMore {
            buyer: party(BUYER, true),
            buyer_deposit_token_account: tokens(BUYER_TOKENS, buyer_holds),
            seller: party(SELLER, false),
            seller_receive_token_account: tokens(SELLER_TOKENS, 0),
            escrow_account: e,
            vault_account: vault_tokens(&e),
            vault_authority: authority(e.order_code).0,
        },
    }
}

fn refund_partial_ctx(e: EscrowAccount) -> Context<RefundPartial> {
    Context {
        program_id: program(),
        accounts: RefundPartial {
            buyer: party(BUYER, false),
            buyer_deposit_token_account: tokens(BUYER_TOKENS, 0),
            seller: party(SELLER, true),
            seller_receive_token_account: tokens(SELLER_TOKENS, 0),
            escrow_account: e,
            vault_account: vault_tokens(&e),
            vault_authority: authority(e.order_code).0,
        },
    }
}

fn adjudge_ctx(e: EscrowAccount) -> Context<Adjudge> {
    Context {
        program_id: program(),
        accounts: Adjudge {
            judge: party(JUDGE, true),
            buyer: party(BUYER, false),
            buyer_deposit_token_account: tokens(BUYER_TOKENS, 0),
            seller: party(SELLER, false),
            seller_receive_token_account: tokens(SELLER_TOKENS, 0),
            escrow_account: e,
        },
    }
}

fn adjudge_partial_ctx(e: EscrowAccount) -> Context<AdjudgePartial> {
    Context {
        program_id: program(),
        accounts: AdjudgePartial {
            judge: party(JUDGE, true),
            buyer: party(BUYER, false),
            buyer_deposit_token_account: tokens(BUYER_TOKENS, 0),
            seller: party(SELLER, false),
            seller_receive_token_account: tokens(SELLER_TOKENS, 0),
            escrow_account: e,
            vault_account: vault_tokens(&e),
            vault_authority: authority(e.order_code).0,
        },
    }
}

fn for_buyer_ctx(e: EscrowAccount) -> Context<AdjudgeForBuyer> {
    Context {
        program_id: program(),
        accounts: AdjudgeForBuyer {
            judge: party(JUDGE, true),
            buyer: party(BUYER, false),
            buyer_deposit_token_account: tokens(BUYER_TOKENS, 0),
            seller: party(SELLER, false),
            seller_receive_token_account: tokens(SELLER_TOKENS, 0),
            escrow_account: e,
            vault_account: vault_tokens(&e),
            vault_authority: authority(e.order_code).0,
        },
    }
}

fn for_seller_ctx(e: EscrowAccount) -> Context<AdjudgeForSeller> {
    Context {
        program_id: program(),
        accounts: AdjudgeForSeller {
            judge: party(JUDGE, true),
            buyer: party(BUYER, false),
            buyer_deposit_token_account: tokens(BUYER_TOKENS, 0),
            seller: party(SELLER, false),
            seller_receive_token_account: tokens(SELLER_TOKENS, 0),
            escrow_account: e,
            vault_account: vault_tokens(&e),
            vault_authority: authority(e.order_code).0,
        },
    }
}

fn trial_ctx(e: EscrowAccount) -> Context<UpdateTrialDay> {
    Context {
        program_id: program(),
        accounts: UpdateTrialDay {
            judge: party(JUDGE, true),
            buyer: party(BUYER, false),
            buyer_deposit_token_account: tokens(BUYER_TOKENS, 0),
            seller: party(SELLER, false),
            seller_receive_token_account: tokens(SELLER_TOKENS, 0),
            escrow_account: e,
        },
    }
}

fn to_buyer(order_code: u64) -> Transfer {
    Transfer { from: vault(order_code), to: key(BUYER_TOKENS), authority: authority(order_code).0.key }
}

fn to_seller(order_code: u64) -> Transfer {
    Transfer { from: vault(order_code), to: key(SELLER_TOKENS), authority: authority(order_code).0.key }
}

fn closing(order_code: u64) -> CloseAccount {
    CloseAccount {
        account: vault(order_code),
        destination: key(BUYER),
        authority: authority(order_code).0.key,
    }
}

fn full_settlement(transfer: Transfer, amount: u64, order_code: u64) -> Vec<CustodyRequest> {
    let bump = authority(order_code).1;
    vec![
        CustodyRequest::Transfer { accounts: transfer, amount, signer_bump: Some(bump) },
        CustodyRequest::CloseAccount { accounts: closing(order_code), signer_bump: Some(bump) },
        CustodyRequest::CloseRecord { destination: key(BUYER) },
    ]
}

#[test]
fn seed_is_prefix_and_decimal_order_code() {
    assert_eq!(escrow_seed(7), b"escrow-7".to_vec());
    assert_eq!(escrow_seed(0), b"escrow-0".to_vec());
    assert_eq!(escrow_seed(10), b"escrow-10".to_vec());
    assert_eq!(escrow_seed(1234567890), b"escrow-1234567890".to_vec());
    assert_eq!(escrow_seed(u64::MAX), format!("escrow-{}", u64::MAX).into_bytes());
    assert_eq!(escrow_seed(u64::MAX).len(), 27);
}

#[test]
fn authority_is_the_program_address_of_the_seed() {
    let program_id = Pubkey::new_from_array([9; 32]);
    let (expected, bump) = Pubkey::find_program_address(&[b"escrow-7"], &program_id);
    let derived = derive_authority(7, &program()).unwrap();
    assert_eq!(derived.key.to_bytes(), expected.to_bytes());
    assert_eq!(derived.bump, bump);
    assert_ne!(derived.key, program());
    assert_ne!(derived.key.to_bytes().to_vec(), escrow_seed(7));
}

#[test]
fn authority_of_a_known_order() {
    let derived = derive_authority(7, &program()).unwrap();
    assert_eq!(derived.bump, 255);
    assert_eq!(
        derived.key.to_bytes(),
        [
            191, 100, 213, 254, 160, 10, 141, 129, 147, 149, 9, 235, 28, 212, 48, 195, 239, 57,
            60, 199, 4, 181, 47, 56, 117, 92, 75, 219, 90, 233, 211, 242
        ]
    );
}

#[test]
fn derivation_twice_gives_the_same_authority() {
    let first = derive_authority(42, &program()).unwrap();
    let second = derive_authority(42, &program()).unwrap();
    assert_eq!(first.key, second.key);
    assert_eq!(first.bump, second.bump);
    let other = derive_authority(43, &program()).unwrap();
    assert_ne!(first.key, other.key);
    let elsewhere = derive_authority(42, &key(8)).unwrap();
    assert_ne!(first.key, elsewhere.key);
}

#[test]
fn vault_authority_check_accepts_only_the_derived_key() {
    let a = derive_authority(7, &program()).unwrap();
    assert_eq!(check_vault_authority(7, &program(), &a.key), Some(a.bump));
    assert_eq!(check_vault_authority(8, &program(), &a.key), None);
    assert_eq!(check_vault_authority(7, &program(), &key(BUYER)), None);
}

#[test]
fn vault_stands_at_the_address_derived_for_the_order() {
    assert_eq!(vault_seed(7), b"token-seed-7".to_vec());
    assert_eq!(vault_seed(u64::MAX).len(), 31);
    assert!(check_vault(7, &program(), &vault(7)));
    assert!(!check_vault(8, &program(), &vault(7)));
    assert!(!check_vault(7, &key(8), &vault(7)));
    assert!(!check_vault(7, &program(), &authority(7).0.key));
    let e = opened(500, 3, 0, 0);
    let mut ctx = cancel_ctx(e);
    ctx.accounts.vault_account.key = vault(4);
    assert_eq!(cancel(&mut ctx, 3), Err(ErrorCode::AuthorizationFailure));
    let mut ctx = charge_more_ctx(e, 100);
    ctx.accounts.vault_account.key = key(BUYER_TOKENS);
    assert_eq!(charge_more(&mut ctx, 3, 10), Err(ErrorCode::AuthorizationFailure));
    assert_eq!(ctx.accounts.escrow_account, e);
}

#[test]
fn identities_compare_by_bytes() {
    let mut bytes = [1u8; 32];
    assert_eq!(Identity::new(bytes), key(1));
    bytes[31] = 2;
    assert_ne!(Identity::new(bytes), key(1));
    bytes[31] = 1;
    bytes[0] = 0;
    assert_ne!(Identity::new(bytes), key(1));
}

#[test]
fn initialize_fills_the_record_and_funds_the_vault() {
    let mut ctx = Context {
        program_id: program(),
        accounts: Initialize {
            buyer: party(BUYER, true),
            seller: party(SELLER, false),
            judge: party(JUDGE, false),
            vault_account: TokenAccount { key: vault(7), amount: 0 },
            buyer_deposit_token_account: tokens(BUYER_TOKENS, 1000),
            seller_receive_token_account: tokens(SELLER_TOKENS, 0),
            escrow_account: blank(),
        },
    };
    let requests = initialize(&mut ctx, vault_bump(7), 1000, 7, 3, 1_600_000_000).unwrap();
    let e = ctx.accounts.escrow_account;
    assert_eq!(e.buyer_key, key(BUYER));
    assert_eq!(e.buyer_deposit_token_account, key(BUYER_TOKENS));
    assert_eq!(e.seller_key, key(SELLER));
    assert_eq!(e.seller_receive_token_account, key(SELLER_TOKENS));
    assert_eq!(e.judge_key, key(JUDGE));
    assert_eq!(e.amount, 1000);
    assert_eq!(e.order_code, 7);
    assert_eq!(e.status, STATUS_NEW);
    assert_eq!(e.delivery_time, 1_600_000_000);
    assert_eq!(e.trial_day, 3);
    assert_eq!(
        requests,
        vec![
            CustodyRequest::SetAuthority {
                accounts: SetAuthority {
                    account_or_mint: vault(7),
                    current_authority: key(BUYER),
                },
                new_authority: authority(7).0.key,
            },
            CustodyRequest::Transfer {
                accounts: Transfer {
                    from: key(BUYER_TOKENS),
                    to: vault(7),
                    authority: key(BUYER),
                },
                amount: 1000,
                signer_bump: None,
            },
        ]
    );
}

#[test]
fn initialize_refusals() {
    let fresh = |signer: bool, holds: u64| Context {
        program_id: program(),
        accounts: Initialize {
            buyer: party(BUYER, signer),
            seller: party(SELLER, false),
            judge: party(JUDGE, false),
            vault_account: TokenAccount { key: vault(1), amount: 0 },
            buyer_deposit_token_account: tokens(BUYER_TOKENS, holds),
            seller_receive_token_account: tokens(SELLER_TOKENS, 0),
            escrow_account: blank(),
        },
    };
    let mut unsigned = fresh(false, 1000);
    assert_eq!(initialize(&mut unsigned, vault_bump(1), 10, 1, 0, 0), Err(ErrorCode::AuthorizationFailure));
    assert_eq!(unsigned.accounts.escrow_account, blank());
    let mut nothing = fresh(true, 1000);
    assert_eq!(
        initialize(&mut nothing, vault_bump(1), 0, 1, 0, 0),
        Err(ErrorCode::ArgumentInvariantViolation)
    );
    let mut poor = fresh(true, 999);
    assert_eq!(initialize(&mut poor, vault_bump(1), 1000, 1, 0, 0), Err(ErrorCode::InsufficientFunds));
    assert_eq!(poor.accounts.escrow_account, blank());
    let mut elsewhere = fresh(true, 1000);
    elsewhere.accounts.vault_account.key = vault(2);
    assert_eq!(initialize(&mut elsewhere, vault_bump(1), 1000, 1, 0, 0), Err(ErrorCode::AuthorizationFailure));
    let mut other_bump = fresh(true, 1000);
    assert_eq!(
        initialize(&mut other_bump, vault_bump(1).wrapping_sub(1), 1000, 1, 0, 0),
        Err(ErrorCode::AuthorizationFailure)
    );
    assert_eq!(other_bump.accounts.escrow_account, blank());
    let mut exact = fresh(true, 1000);
    assert!(initialize(&mut exact, vault_bump(1), 1000, 1, 0, 0).is_ok());
}

#[test]
fn exchange_waits_for_the_trial_period() {
    let e = opened(1000, 7, 2, 50);
    let mut ship = shipping_ctx(e);
    assert_eq!(shipping(&mut ship, 7), Ok(()));
    assert_eq!(ship.accounts.escrow_account.status, STATUS_SHIPPING);
    let mut got = delivered_ctx(ship.accounts.escrow_account);
    assert_eq!(delivered(&mut got, 7, 1000), Ok(()));
    let e = got.accounts.escrow_account;
    assert_eq!(e.status, STATUS_DELIVERED);
    assert_eq!(e.delivery_time, 1000);

    let mut early = exchange_ctx(e);
    assert_eq!(exchange(&mut early, 1000 + 2 * 86400 - 1), Err(ErrorCode::InTrialDay));
    assert_eq!(early.accounts.escrow_account, e);

    let mut due = exchange_ctx(e);
    let requests = exchange(&mut due, 1000 + 2 * 86400).unwrap();
    assert_eq!(requests, full_settlement(to_seller(7), 1000, 7));
}

#[test]
fn exchange_trial_end_does_not_overflow() {
    let mut e = opened(10, 7, 65535, 0);
    e.status = STATUS_DELIVERED;
    e.delivery_time = i64::MAX;
    let mut ctx = exchange_ctx(e);
    assert_eq!(exchange(&mut ctx, i64::MAX), Err(ErrorCode::InTrialDay));
    e.trial_day = 0;
    let mut ctx = exchange_ctx(e);
    assert!(exchange(&mut ctx, i64::MAX).is_ok());
    e.delivery_time = i64::MIN;
    e.trial_day = 65535;
    let mut ctx = exchange_ctx(e);
    assert!(exchange(&mut ctx, i64::MIN + 65535 * 86400).is_ok());
    let mut ctx = exchange_ctx(e);
    assert_eq!(exchange(&mut ctx, i64::MIN + 65535 * 86400 - 1), Err(ErrorCode::InTrialDay));
}

#[test]
fn exchange_refusals() {
    let mut e = opened(1000, 7, 0, 0);
    let mut ctx = exchange_ctx(e);
    assert_eq!(exchange(&mut ctx, 100), Err(ErrorCode::InvalidStateForOperation));
    e.status = STATUS_SHIPPING;
    let mut ctx = exchange_ctx(e);
    assert_eq!(exchange(&mut ctx, 100), Err(ErrorCode::InvalidStateForOperation));
    e.status = STATUS_DELIVERED;
    let mut ctx = exchange_ctx(e);
    ctx.accounts.seller.is_signer = false;
    assert_eq!(exchange(&mut ctx, 100), Err(ErrorCode::AuthorizationFailure));
    let mut ctx = exchange_ctx(e);
    ctx.accounts.seller_receive_token_account.key = key(77);
    assert_eq!(exchange(&mut ctx, 100), Err(ErrorCode::AuthorizationFailure));
    let mut ctx = exchange_ctx(e);
    ctx.accounts.vault_authority.key = key(SELLER);
    assert_eq!(exchange(&mut ctx, 100), Err(ErrorCode::AuthorizationFailure));
    let mut ctx = exchange_ctx(e);
    assert!(exchange(&mut ctx, 100).is_ok());
}

#[test]
fn cancel_partial_takes_less_than_everything() {
    let e = opened(500, 3, 0, 0);
    let mut ctx = cancel_partial_ctx(e);
    let requests = cancel_partial(&mut ctx, 3, 200).unwrap();
    assert_eq!(ctx.accounts.escrow_account.amount, 300);
    assert_eq!(
        requests,
        vec![CustodyRequest::Transfer {
            accounts: to_buyer(3),
            amount: 200,
            signer_bump: Some(authority(3).1),
        }]
    );
    let e = ctx.accounts.escrow_account;
    let mut ctx = cancel_partial_ctx(e);
    assert_eq!(cancel_partial(&mut ctx, 3, 300), Err(ErrorCode::ArgumentInvariantViolation));
    assert_eq!(ctx.accounts.escrow_account, e);
    assert_eq!(cancel_partial(&mut ctx, 3, 301), Err(ErrorCode::ArgumentInvariantViolation));
    assert_eq!(cancel_partial(&mut ctx, 3, 0), Err(ErrorCode::ArgumentInvariantViolation));
    assert!(cancel_partial(&mut ctx, 3, 299).is_ok());
    assert_eq!(ctx.accounts.escrow_account.amount, 1);
}

#[test]
fn cancel_partial_refusals() {
    let e = opened(500, 3, 0, 0);
    let mut ctx = cancel_partial_ctx(e);
    ctx.accounts.buyer.is_signer = false;
    assert_eq!(cancel_partial(&mut ctx, 3, 1), Err(ErrorCode::AuthorizationFailure));
    let mut ctx = cancel_partial_ctx(e);
    ctx.accounts.buyer.key = key(SELLER);
    assert_eq!(cancel_partial(&mut ctx, 3, 1), Err(ErrorCode::AuthorizationFailure));
    let mut ctx = cancel_partial_ctx(e);
    ctx.accounts.buyer_deposit_token_account.key = key(SELLER_TOKENS);
    assert_eq!(cancel_partial(&mut ctx, 3, 1), Err(ErrorCode::AuthorizationFailure));
    let mut ctx = cancel_partial_ctx(e);
    assert_eq!(cancel_partial(&mut ctx, 4, 1), Err(ErrorCode::ArgumentInvariantViolation));
    assert_eq!(ctx.accounts.escrow_account, e);
    let mut shipped = e;
    shipped.status = STATUS_SHIPPING;
    let mut ctx = cancel_partial_ctx(shipped);
    assert_eq!(cancel_partial(&mut ctx, 3, 1), Err(ErrorCode::InvalidStateForOperation));
    let mut ctx = cancel_partial_ctx(e);
    ctx.accounts.vault_authority = authority(4).0;
    assert_eq!(cancel_partial(&mut ctx, 3, 1), Err(ErrorCode::AuthorizationFailure));
    assert_eq!(ctx.accounts.escrow_account, e);
}

#[test]
fn cancel_returns_everything_from_a_new_order_only() {
    let e = opened(500, 3, 0, 0);
    let mut ctx = cancel_ctx(e);
    assert_eq!(cancel(&mut ctx, 3).unwrap(), full_settlement(to_buyer(3), 500, 3));
    let mut ctx = cancel_ctx(e);
    assert_eq!(cancel(&mut ctx, 2), Err(ErrorCode::ArgumentInvariantViolation));
    let mut shipped = e;
    shipped.status = STATUS_SHIPPING;
    let mut ctx = cancel_ctx(shipped);
    assert_eq!(cancel(&mut ctx, 3), Err(ErrorCode::InvalidStateForOperation));
    let mut ctx = cancel_ctx(e);
    ctx.accounts.buyer.is_signer = false;
    assert_eq!(cancel(&mut ctx, 3), Err(ErrorCode::AuthorizationFailure));
}

#[test]
fn charge_more_adds_to_the_vault() {
    let e = opened(500, 3, 0, 0);
    let mut ctx = charge_more_ctx(e, 250);
    let requests = charge_more(&mut ctx, 3, 250).unwrap();
    assert_eq!(ctx.accounts.escrow_account.amount, 750);
    assert_eq!(
        requests,
        vec![CustodyRequest::Transfer {
            accounts: Transfer { from: key(BUYER_TOKENS), to: vault(3), authority: key(BUYER) },
            amount: 250,
            signer_bump: None,
        }]
    );
    let mut ctx = charge_more_ctx(e, 250);
    assert_eq!(charge_more(&mut ctx, 3, 251), Err(ErrorCode::InsufficientFunds));
    assert_eq!(charge_more(&mut ctx, 3, 0), Err(ErrorCode::ArgumentInvariantViolation));
    assert_eq!(charge_more(&mut ctx, 4, 10), Err(ErrorCode::ArgumentInvariantViolation));
    assert_eq!(ctx.accounts.escrow_account, e);
    ctx.accounts.buyer.is_signer = false;
    assert_eq!(charge_more(&mut ctx, 3, 10), Err(ErrorCode::AuthorizationFailure));
}

#[test]
fn charge_more_cannot_exceed_what_a_vault_holds() {
    let mut e = opened(500, 3, 0, 0);
    e.amount = u64::MAX - 10;
    let mut ctx = charge_more_ctx(e, 100);
    assert_eq!(charge_more(&mut ctx, 3, 11), Err(ErrorCode::ArgumentInvariantViolation));
    assert_eq!(ctx.accounts.escrow_account.amount, u64::MAX - 10);
    assert!(charge_more(&mut ctx, 3, 10).is_ok());
    assert_eq!(ctx.accounts.escrow_account.amount, u64::MAX);
}

#[test]
fn shipping_needs_the_seller_and_a_new_order() {
    let e = opened(100, 5, 0, 0);
    let mut ctx = shipping_ctx(e);
    ctx.accounts.seller.is_signer = false;
    assert_eq!(shipping(&mut ctx, 5), Err(ErrorCode::AuthorizationFailure));
    let mut ctx = shipping_ctx(e);
    ctx.accounts.seller.key = key(BUYER);
    assert_eq!(shipping(&mut ctx, 5), Err(ErrorCode::AuthorizationFailure));
    let mut ctx = shipping_ctx(e);
    assert_eq!(shipping(&mut ctx, 6), Err(ErrorCode::ArgumentInvariantViolation));
    assert_eq!(ctx.accounts.escrow_account, e);
    assert_eq!(shipping(&mut ctx, 5), Ok(()));
    assert_eq!(ctx.accounts.escrow_account.status, STATUS_SHIPPING);
    assert_eq!(shipping(&mut ctx, 5), Err(ErrorCode::InvalidStateForOperation));
    assert_eq!(ctx.accounts.escrow_account.amount, 100);
}

#[test]
fn delivered_needs_the_buyer_and_a_shipped_order() {
    let e = opened(100, 5, 0, 10);
    let mut ctx = delivered_ctx(e);
    assert_eq!(delivered(&mut ctx, 5, 99), Err(ErrorCode::InvalidStateForOperation));
    assert_eq!(ctx.accounts.escrow_account.delivery_time, 10);
    let mut shipped = e;
    shipped.status = STATUS_SHIPPING;
    let mut ctx = delivered_ctx(shipped);
    ctx.accounts.buyer.is_signer = false;
    assert_eq!(delivered(&mut ctx, 5, 99), Err(ErrorCode::AuthorizationFailure));
    let mut ctx = delivered_ctx(shipped);
    assert_eq!(delivered(&mut ctx, 4, 99), Err(ErrorCode::ArgumentInvariantViolation));
    assert_eq!(delivered(&mut ctx, 5, 99), Ok(()));
    assert_eq!(ctx.accounts.escrow_account.status, STATUS_DELIVERED);
    assert_eq!(ctx.accounts.escrow_account.delivery_time, 99);
    assert_eq!(delivered(&mut ctx, 5, 100), Err(ErrorCode::InvalidStateForOperation));
}

#[test]
fn refund_takes_the_order_back_to_new() {
    let e = opened(100, 5, 0, 10);
    let mut ctx = refund_ctx(e);
    assert_eq!(refund(&mut ctx, 5), Err(ErrorCode::InvalidStateForOperation));
    let mut d = e;
    d.status = STATUS_DELIVERED;
    let mut ctx = refund_ctx(d);
    assert_eq!(refund(&mut ctx, 6), Err(ErrorCode::ArgumentInvariantViolation));
    assert_eq!(ctx.accounts.escrow_account.status, STATUS_DELIVERED);
    assert_eq!(refund(&mut ctx, 5), Ok(()));
    assert_eq!(ctx.accounts.escrow_account.status, STATUS_NEW);
    assert_eq!(ctx.accounts.escrow_account.amount, 100);
    let mut s = e;
    s.status = STATUS_SHIPPING;
    let mut ctx = refund_ctx(s);
    ctx.accounts.seller.is_signer = false;
    assert_eq!(refund(&mut ctx, 5), Err(ErrorCode::AuthorizationFailure));
    ctx.accounts.seller.is_signer = true;
    assert_eq!(refund(&mut ctx, 5), Ok(()));
    assert_eq!(ctx.accounts.escrow_account.status, STATUS_NEW);
}

#[test]
fn refund_partial_after_shipping() {
    let mut e = opened(100, 5, 0, 10);
    let mut ctx = refund_partial_ctx(e);
    assert_eq!(refund_partial(&mut ctx, 5, 10), Err(ErrorCode::InvalidStateForOperation));
    e.status = STATUS_SHIPPING;
    let mut ctx = refund_partial_ctx(e);
    let requests = refund_partial(&mut ctx, 5, 40).unwrap();
    assert_eq!(ctx.accounts.escrow_account.amount, 60);
    assert_eq!(
        requests,
        vec![CustodyRequest::Transfer {
            accounts: to_buyer(5),
            amount: 40,
            signer_bump: Some(authority(5).1),
        }]
    );
    assert_eq!(refund_partial(&mut ctx, 5, 60), Err(ErrorCode::ArgumentInvariantViolation));
    ctx.accounts.seller.is_signer = false;
    assert_eq!(refund_partial(&mut ctx, 5, 1), Err(ErrorCode::AuthorizationFailure));
    assert_eq!(ctx.accounts.escrow_account.amount, 60);
}

#[test]
fn adjudge_sets_one_of_the_three_statuses_only() {
    let e = opened(100, 5, 0, 10);
    let mut ctx = adjudge_ctx(e);
    assert_eq!(adjudge(&mut ctx, 5, STATUS_DELIVERED, 500), Ok(()));
    assert_eq!(ctx.accounts.escrow_account.status, STATUS_DELIVERED);
    assert_eq!(ctx.accounts.escrow_account.delivery_time, 500);
    assert_eq!(adjudge(&mut ctx, 5, STATUS_SHIPPING, 600), Ok(()));
    assert_eq!(ctx.accounts.escrow_account.status, STATUS_SHIPPING);
    assert_eq!(ctx.accounts.escrow_account.delivery_time, 500);
    assert_eq!(adjudge(&mut ctx, 5, STATUS_NEW, 700), Ok(()));
    assert_eq!(ctx.accounts.escrow_account.status, STATUS_NEW);
    assert_eq!(ctx.accounts.escrow_account.delivery_time, 500);
    let before = ctx.accounts.escrow_account;
    assert_eq!(adjudge(&mut ctx, 5, 3, 800), Err(ErrorCode::ArgumentInvariantViolation));
    assert_eq!(ctx.accounts.escrow_account, before);
    assert_eq!(adjudge(&mut ctx, 5, 255, 800), Err(ErrorCode::ArgumentInvariantViolation));
    assert_eq!(ctx.accounts.escrow_account, before);
}

#[test]
fn adjudge_needs_the_judge_on_record() {
    let e = opened(100, 5, 0, 10);
    let mut ctx = adjudge_ctx(e);
    ctx.accounts.judge.is_signer = false;
    assert_eq!(adjudge(&mut ctx, 5, 1, 0), Err(ErrorCode::AuthorizationFailure));
    let mut ctx = adjudge_ctx(e);
    ctx.accounts.judge.key = key(SELLER);
    assert_eq!(adjudge(&mut ctx, 5, 1, 0), Err(ErrorCode::AuthorizationFailure));
    let mut ctx = adjudge_ctx(e);
    assert_eq!(adjudge(&mut ctx, 6, 1, 0), Err(ErrorCode::ArgumentInvariantViolation));
    assert_eq!(ctx.accounts.escrow_account, e);

    let mut ctx = adjudge_partial_ctx(e);
    ctx.accounts.judge.key = key(SELLER);
    assert_eq!(adjudge_partial(&mut ctx, 5, 1), Err(ErrorCode::AuthorizationFailure));
    let mut ctx = for_buyer_ctx(e);
    ctx.accounts.judge.key = key(SELLER);
    assert_eq!(adjudge_for_buyer(&mut ctx, 5), Err(ErrorCode::AuthorizationFailure));
    let mut ctx = for_seller_ctx(e);
    ctx.accounts.judge.is_signer = false;
    assert_eq!(adjudge_for_seller(&mut ctx, 5), Err(ErrorCode::AuthorizationFailure));
    let mut ctx = trial_ctx(e);
    ctx.accounts.judge.key = key(BUYER);
    assert_eq!(update_trial_day(&mut ctx, 5, 1), Err(ErrorCode::AuthorizationFailure));
}

#[test]
fn adjudge_partial_at_any_status() {
    let mut e = opened(100, 5, 0, 10);
    for status in [STATUS_NEW, STATUS_SHIPPING, STATUS_DELIVERED] {
        e.status = status;
        let mut ctx = adjudge_partial_ctx(e);
        let requests = adjudge_partial(&mut ctx, 5, 99).unwrap();
        assert_eq!(ctx.accounts.escrow_account.amount, 1);
        assert_eq!(ctx.accounts.escrow_account.status, status);
        assert_eq!(
            requests,
            vec![CustodyRequest::Transfer {
                accounts: to_buyer(5),
                amount: 99,
                signer_bump: Some(authority(5).1),
            }]
        );
    }
    let mut ctx = adjudge_partial_ctx(e);
    assert_eq!(adjudge_partial(&mut ctx, 5, 100), Err(ErrorCode::ArgumentInvariantViolation));
    assert_eq!(adjudge_partial(&mut ctx, 5, 0), Err(ErrorCode::ArgumentInvariantViolation));
    assert_eq!(adjudge_partial(&mut ctx, 4, 1), Err(ErrorCode::ArgumentInvariantViolation));
}

#[test]
fn adjudge_for_buyer_returns_everything_at_any_status() {
    let mut e = opened(640, 11, 4, 10);
    for status in [STATUS_NEW, STATUS_SHIPPING, STATUS_DELIVERED] {
        e.status = status;
        let mut ctx = for_buyer_ctx(e);
        let requests = adjudge_for_buyer(&mut ctx, 11).unwrap();
        assert_eq!(requests, full_settlement(to_buyer(11), 640, 11));
    }
    let mut ctx = for_buyer_ctx(e);
    assert_eq!(adjudge_for_buyer(&mut ctx, 12), Err(ErrorCode::ArgumentInvariantViolation));
}

#[test]
fn adjudge_for_seller_pays_everything_at_any_status() {
    let mut e = opened(640, 11, 4, 10);
    for status in [STATUS_NEW, STATUS_SHIPPING, STATUS_DELIVERED] {
        e.status = status;
        let mut ctx = for_seller_ctx(e);
        let requests = adjudge_for_seller(&mut ctx, 11).unwrap();
        assert_eq!(requests, full_settlement(to_seller(11), 640, 11));
    }
    let mut ctx = for_seller_ctx(e);
    ctx.accounts.vault_authority = authority(12).0;
    assert_eq!(adjudge_for_seller(&mut ctx, 11), Err(ErrorCode::AuthorizationFailure));
}

#[test]
fn update_trial_day_sets_the_window() {
    let e = opened(100, 5, 1, 10);
    let mut ctx = trial_ctx(e);
    assert_eq!(update_trial_day(&mut ctx, 5, 30), Ok(()));
    assert_eq!(ctx.accounts.escrow_account.trial_day, 30);
    assert_eq!(ctx.accounts.escrow_account.amount, 100);
    assert_eq!(update_trial_day(&mut ctx, 6, 31), Err(ErrorCode::ArgumentInvariantViolation));
    assert_eq!(ctx.accounts.escrow_account.trial_day, 30);
}

#[test]
fn in_trial_is_strict_at_the_boundary() {
    let mut e = blank();
    e.delivery_time = 1000;
    e.trial_day = 2;
    assert!(e.in_trial(173_799));
    assert!(!e.in_trial(173_800));
    e.trial_day = 0;
    assert!(e.in_trial(999));
    assert!(!e.in_trial(1000));
}

#[test]
fn error_messages() {
    assert_eq!(ErrorCode::InTrialDay.message(), "The order is still in the trial period.");
    assert_ne!(
        ErrorCode::AuthorizationFailure.message(),
        ErrorCode::InsufficientFunds.message()
    );
}

/// Token balances by address, and whether the record is still open.
struct Books {
    balances: BTreeMap<[u8; 32], u64>,
    record_open: bool,
}

impl Books {
    fn new(order_code: u64, buyer_holds: u64) -> Books {
        let mut balances = BTreeMap::new();
        balances.insert(key(BUYER_TOKENS).to_bytes(), buyer_holds);
        balances.insert(key(SELLER_TOKENS).to_bytes(), 0);
        balances.insert(vault(order_code).to_bytes(), 0);
        Books { balances, record_open: true }
    }

    fn of(&self, account: Identity) -> Option<u64> {
        self.balances.get(&account.to_bytes()).copied()
    }

    fn carry_out(&mut self, requests: &[CustodyRequest]) {
        for request in requests {
            match *request {
                CustodyRequest::Transfer { accounts, amount, .. } => {
                    let from = self.of(accounts.from).unwrap();
                    let to = self.of(accounts.to).unwrap();
                    assert_ne!(accounts.from, accounts.to);
                    self.balances.insert(accounts.from.to_bytes(), from.checked_sub(amount).unwrap());
                    self.balances.insert(accounts.to.to_bytes(), to.checked_add(amount).unwrap());
                }
                CustodyRequest::CloseAccount { accounts, .. } => {
                    assert_eq!(self.of(accounts.account), Some(0));
                    self.balances.remove(&accounts.account.to_bytes());
                }
                CustodyRequest::SetAuthority { .. } => {}
                CustodyRequest::CloseRecord { .. } => self.record_open = false,
            }
        }
    }
}

fn open_with_books(amount: u64, order_code: u64, trial_day: u16, now: i64) -> (EscrowAccount, Books) {
    let mut books = Books::new(order_code, 5000);
    let mut ctx = Context {
        program_id: program(),
        accounts: Initialize {
            buyer: party(BUYER, true),
            seller: party(SELLER, false),
            judge: party(JUDGE, false),
            vault_account: TokenAccount { key: vault(order_code), amount: 0 },
            buyer_deposit_token_account: tokens(BUYER_TOKENS, 5000),
            seller_receive_token_account: tokens(SELLER_TOKENS, 0),
            escrow_account: blank(),
        },
    };
    let requests = initialize(&mut ctx, vault_bump(order_code), amount, order_code, trial_day, now).unwrap();
    books.carry_out(&requests);
    (ctx.accounts.escrow_account, books)
}

#[test]
fn order_runs_from_deposit_to_payout() {
    let (e, mut books) = open_with_books(1000, 7, 1, 0);
    assert_eq!(books.of(vault(7)), Some(1000));
    assert_eq!(books.of(key(BUYER_TOKENS)), Some(4000));
    let mut ship = shipping_ctx(e);
    shipping(&mut ship, 7).unwrap();
    let mut got = delivered_ctx(ship.accounts.escrow_account);
    delivered(&mut got, 7, 10_000).unwrap();
    let e = got.accounts.escrow_account;

    let mut early = exchange_ctx(e);
    assert_eq!(exchange(&mut early, 10_000 + 86_399), Err(ErrorCode::InTrialDay));
    assert_eq!(books.of(vault(7)), Some(e.amount));
    assert!(books.record_open);

    let mut due = exchange_ctx(e);
    let requests = exchange(&mut due, 10_000 + 86_400).unwrap();
    books.carry_out(&requests);
    assert_eq!(books.of(key(SELLER_TOKENS)), Some(1000));
    assert_eq!(books.of(key(BUYER_TOKENS)), Some(4000));
    assert_eq!(books.of(vault(7)), None);
    assert!(!books.record_open);
}

#[test]
fn partial_cancel_moves_the_amount_to_the_buyer() {
    let (e, mut books) = open_with_books(500, 3, 0, 0);
    let mut ctx = cancel_partial_ctx(e);
    let requests = cancel_partial(&mut ctx, 3, 200).unwrap();
    books.carry_out(&requests);
    assert_eq!(ctx.accounts.escrow_account.amount, 300);
    assert_eq!(books.of(vault(3)), Some(300));
    assert_eq!(books.of(key(BUYER_TOKENS)), Some(4700));
    assert_eq!(cancel_partial(&mut ctx, 3, 300), Err(ErrorCode::ArgumentInvariantViolation));
    assert_eq!(ctx.accounts.escrow_account.amount, 300);
    assert!(books.record_open);

    let mut all = cancel_ctx(ctx.accounts.escrow_account);
    let requests = cancel(&mut all, 3).unwrap();
    books.carry_out(&requests);
    assert_eq!(books.of(key(BUYER_TOKENS)), Some(5000));
    assert_eq!(books.of(vault(3)), None);
    assert!(!books.record_open);
}

#[test]
fn judge_returns_everything_to_the_buyer_at_any_status() {
    for status in [STATUS_NEW, STATUS_SHIPPING, STATUS_DELIVERED] {
        let (mut e, mut books) = open_with_books(640, 11, 4, 10);
        e.status = status;
        let mut ctx = for_buyer_ctx(e);
        let requests = adjudge_for_buyer(&mut ctx, 11).unwrap();
        books.carry_out(&requests);
        assert_eq!(books.of(key(BUYER_TOKENS)), Some(5000));
        assert_eq!(books.of(key(SELLER_TOKENS)), Some(0));
        assert_eq!(books.of(vault(11)), None);
        assert!(!books.record_open);
    }
}

#[test]
fn judge_pays_everything_to_the_seller() {
    let (e, mut books) = open_with_books(640, 11, 4, 10);
    let mut ctx = for_seller_ctx(e);
    let requests = adjudge_for_seller(&mut ctx, 11).unwrap();
    books.carry_out(&requests);
    assert_eq!(books.of(key(SELLER_TOKENS)), Some(640));
    assert_eq!(books.of(key(BUYER_TOKENS)), Some(4360));
    assert_eq!(books.of(vault(11)), None);
    assert!(!books.record_open);
}

#[test]
fn vault_holds_what_the_record_says_after_every_step() {
    let (e, mut books) = open_with_books(1000, 21, 0, 0);
    assert_eq!(books.of(vault(21)), Some(e.amount));

    let mut more = charge_more_ctx(e, books.of(key(BUYER_TOKENS)).unwrap());
    let requests = charge_more(&mut more, 21, 500).unwrap();
    books.carry_out(&requests);
    let e = more.accounts.escrow_account;
    assert_eq!(e.amount, 1500);
    assert_eq!(books.of(vault(21)), Some(e.amount));
    assert_eq!(books.of(key(BUYER_TOKENS)), Some(3500));

    let mut less = cancel_partial_ctx(e);
    let requests = cancel_partial(&mut less, 21, 100).unwrap();
    books.carry_out(&requests);
    let e = less.accounts.escrow_account;
    assert_eq!(books.of(vault(21)), Some(e.amount));

    let mut ship = shipping_ctx(e);
    shipping(&mut ship, 21).unwrap();
    let e = ship.accounts.escrow_account;
    assert_eq!(books.of(vault(21)), Some(e.amount));

    let mut back = refund_partial_ctx(e);
    let requests = refund_partial(&mut back, 21, 400).unwrap();
    books.carry_out(&requests);
    let e = back.accounts.escrow_account;
    assert_eq!(e.amount, 1000);
    assert_eq!(books.of(vault(21)), Some(e.amount));

    let mut ruled = adjudge_partial_ctx(e);
    let requests = adjudge_partial(&mut ruled, 21, 999).unwrap();
    books.carry_out(&requests);
    let e = ruled.accounts.escrow_account;
    assert_eq!(e.amount, 1);
    assert_eq!(books.of(vault(21)), Some(1));
    assert_eq!(books.of(key(BUYER_TOKENS)), Some(4999));
    assert_eq!(books.of(key(SELLER_TOKENS)), Some(0));
}

#[test]
fn wrong_order_code_changes_nothing() {
    let mut e = opened(100, 5, 1, 10);
    e.status = STATUS_SHIPPING;
    let mut a = shipping_ctx(e);
    assert!(shipping(&mut a, 6).is_err());
    assert_eq!(a.accounts.escrow_account, e);
    let mut b = delivered_ctx(e);
    assert!(delivered(&mut b, 6, 77).is_err());
    assert_eq!(b.accounts.escrow_account, e);
    let mut c = refund_ctx(e);
    assert!(refund(&mut c, 6).is_err());
    assert_eq!(c.accounts.escrow_account, e);
    let mut d = refund_partial_ctx(e);
    assert!(refund_partial(&mut d, 6, 1).is_err());
    assert_eq!(d.accounts.escrow_account, e);
    let mut f = adjudge_ctx(e);
    assert!(adjudge(&mut f, 6, 2, 77).is_err());
    assert_eq!(f.accounts.escrow_account, e);
    let mut g = adjudge_partial_ctx(e);
    assert!(adjudge_partial(&mut g, 6, 1).is_err());
    assert_eq!(g.accounts.escrow_account, e);
    let mut h = for_buyer_ctx(e);
    assert!(adjudge_for_buyer(&mut h, 6).is_err());
    let mut i = for_seller_ctx(e);
    assert!(adjudge_for_seller(&mut i, 6).is_err());
    let mut j = trial_ctx(e);
    assert!(update_trial_day(&mut j, 6, 9).is_err());
    assert_eq!(j.accounts.escrow_account, e);
    let mut k = charge_more_ctx(e, 100);
    assert!(charge_more(&mut k, 6, 1).is_err());
    assert_eq!(k.accounts.escrow_account, e);
    let mut l = cancel_ctx(e);
    assert!(cancel(&mut l, 6).is_err());
    let mut m = cancel_partial_ctx(e);
    assert!(cancel_partial(&mut m, 6, 1).is_err());
    assert_eq!(m.accounts.escrow_account, e);
}

#[test]
fn charge_more_names_missing_funds_before_a_full_vault() {
    let mut e = opened(500, 3, 0, 0);
    e.amount = u64::MAX - 10;
    let mut ctx = charge_more_ctx(e, 5);
    assert_eq!(charge_more(&mut ctx, 3, 11), Err(ErrorCode::InsufficientFunds));
    assert_eq!(charge_more(&mut ctx, 3, 6), Err(ErrorCode::InsufficientFunds));
    assert_eq!(ctx.accounts.escrow_account.amount, u64::MAX - 10);
    let mut ctx = charge_more_ctx(e, 11);
    assert_eq!(charge_more(&mut ctx, 3, 11), Err(ErrorCode::ArgumentInvariantViolation));
    assert_eq!(charge_more_with(&mut ctx, 3, 11, false), Err(ErrorCode::ArgumentInvariantViolation));
    assert_eq!(charge_more(&mut ctx, 3, 10).map(|r| r.len()), Ok(1));
}

#[test]
fn derived_results_decide_as_given() {
    let a = Authority { key: key(40), bump: 250 };
    assert_eq!(signer_bump(Some(a), &key(40)), Some(250));
    assert_eq!(signer_bump(Some(a), &key(41)), None);
    assert_eq!(signer_bump(None, &key(40)), None);
    assert!(is_address(Some((key(40), 3)), &key(40)));
    assert!(!is_address(Some((key(40), 3)), &key(41)));
    assert!(!is_address(None, &key(40)));
    assert!(is_address_at(Some((key(40), 3)), &key(40), 3));
    assert!(!is_address_at(Some((key(40), 3)), &key(40), 4));
    assert!(!is_address_at(Some((key(40), 3)), &key(41), 3));
    assert!(!is_address_at(None, &key(40), 3));
    assert_eq!(derive_vault(7, &program()), Some((vault(7), vault_bump(7))));
    assert_ne!(derive_vault(7, &program()), derive_vault(8, &program()));
    assert!(check_vault_at(7, &program(), &vault(7), vault_bump(7)));
    assert!(!check_vault_at(7, &program(), &vault(7), vault_bump(7).wrapping_add(1)));
    assert!(!check_vault_at(7, &program(), &vault(8), vault_bump(7)));
}

#[test]
fn initialize_with_takes_the_authority_it_is_given() {
    let fresh = || Context {
        program_id: program(),
        accounts: Initialize {
            buyer: party(BUYER, true),
            seller: party(SELLER, false),
            judge: party(JUDGE, false),
            vault_account: tokens(60, 0),
            buyer_deposit_token_account: tokens(BUYER_TOKENS, 500),
            seller_receive_token_account: tokens(SELLER_TOKENS, 0),
            escrow_account: blank(),
        },
    };
    let a = Authority { key: key(40), bump: 250 };
    let mut ctx = fresh();
    let requests = initialize_with(&mut ctx, 500, 3, 2, 77, true, Some(a)).unwrap();
    assert_eq!(
        requests,
        vec![
            CustodyRequest::SetAuthority {
                accounts: SetAuthority { account_or_mint: key(60), current_authority: key(BUYER) },
                new_authority: key(40),
            },
            CustodyRequest::Transfer {
                accounts: Transfer { from: key(BUYER_TOKENS), to: key(60), authority: key(BUYER) },
                amount: 500,
                signer_bump: None,
            },
        ]
    );
    let e = ctx.accounts.escrow_account;
    assert_eq!((e.amount, e.order_code, e.status, e.delivery_time, e.trial_day), (500, 3, 0, 77, 2));
    let mut ctx = fresh();
    assert_eq!(
        initialize_with(&mut ctx, 500, 3, 2, 77, false, Some(a)),
        Err(ErrorCode::AuthorizationFailure)
    );
    assert_eq!(
        initialize_with(&mut ctx, 500, 3, 2, 77, true, None),
        Err(ErrorCode::AuthorizationFailure)
    );
    assert_eq!(
        initialize_with(&mut ctx, 501, 3, 2, 77, false, None),
        Err(ErrorCode::InsufficientFunds)
    );
    assert_eq!(
        initialize_with(&mut ctx, 0, 3, 2, 77, false, None),
        Err(ErrorCode::ArgumentInvariantViolation)
    );
    assert_eq!(ctx.accounts.escrow_account, blank());
}

#[test]
fn partial_releases_sign_with_the_bump_they_are_given() {
    let mut e = opened(500, 3, 0, 0);
    let expected = |bump: u8| {
        vec![CustodyRequest::Transfer { accounts: to_buyer(3), amount: 200, signer_bump: Some(bump) }]
    };
    let mut a = cancel_partial_ctx(e);
    assert_eq!(cancel_partial_with(&mut a, 3, 200, true, Some(9)), Ok(expected(9)));
    assert_eq!(a.accounts.escrow_account.amount, 300);
    assert_eq!(
        cancel_partial_with(&mut a, 3, 200, false, Some(9)),
        Err(ErrorCode::AuthorizationFailure)
    );
    assert_eq!(cancel_partial_with(&mut a, 3, 200, true, None), Err(ErrorCode::AuthorizationFailure));
    assert_eq!(
        cancel_partial_with(&mut a, 3, 300, true, Some(9)),
        Err(ErrorCode::ArgumentInvariantViolation)
    );
    assert_eq!(a.accounts.escrow_account.amount, 300);

    e.status = STATUS_DELIVERED;
    let mut b = refund_partial_ctx(e);
    assert_eq!(refund_partial_with(&mut b, 3, 200, true, Some(1)), Ok(expected(1)));
    assert_eq!(b.accounts.escrow_account.amount, 300);
    assert_eq!(b.accounts.escrow_account.status, STATUS_DELIVERED);
    assert_eq!(refund_partial_with(&mut b, 3, 1, true, None), Err(ErrorCode::AuthorizationFailure));

    let mut c = adjudge_partial_ctx(e);
    assert_eq!(adjudge_partial_with(&mut c, 3, 200, true, Some(0)), Ok(expected(0)));
    assert_eq!(c.accounts.escrow_account.amount, 300);
    assert_eq!(
        adjudge_partial_with(&mut c, 3, 1, false, Some(0)),
        Err(ErrorCode::AuthorizationFailure)
    );
}

#[test]
fn full_settlements_sign_with_the_bump_they_are_given() {
    let mut e = opened(640, 11, 1, 0);
    let expected = |transfer: Transfer, bump: u8| {
        vec![
            CustodyRequest::Transfer { accounts: transfer, amount: 640, signer_bump: Some(bump) },
            CustodyRequest::CloseAccount { accounts: closing(11), signer_bump: Some(bump) },
            CustodyRequest::CloseRecord { destination: key(BUYER) },
        ]
    };
    let mut a = cancel_ctx(e);
    assert_eq!(cancel_with(&mut a, 11, true, Some(7)), Ok(expected(to_buyer(11), 7)));
    assert_eq!(cancel_with(&mut a, 11, false, Some(7)), Err(ErrorCode::AuthorizationFailure));
    assert_eq!(cancel_with(&mut a, 11, true, None), Err(ErrorCode::AuthorizationFailure));

    let mut b = for_buyer_ctx(e);
    assert_eq!(adjudge_for_buyer_with(&mut b, 11, true, Some(8)), Ok(expected(to_buyer(11), 8)));
    assert_eq!(adjudge_for_buyer_with(&mut b, 11, true, None), Err(ErrorCode::AuthorizationFailure));

    let mut c = for_seller_ctx(e);
    assert_eq!(adjudge_for_seller_with(&mut c, 11, true, Some(9)), Ok(expected(to_seller(11), 9)));
    assert_eq!(
        adjudge_for_seller_with(&mut c, 11, false, Some(9)),
        Err(ErrorCode::AuthorizationFailure)
    );

    e.status = STATUS_DELIVERED;
    e.delivery_time = 1000;
    let mut d = exchange_ctx(e);
    assert_eq!(exchange_with(&mut d, 1000 + 86_399, true, Some(3)), Err(ErrorCode::InTrialDay));
    assert_eq!(exchange_with(&mut d, 1000 + 86_400, true, Some(3)), Ok(expected(to_seller(11), 3)));
    assert_eq!(
        exchange_with(&mut d, 1000 + 86_400, true, None),
        Err(ErrorCode::AuthorizationFailure)
    );
    assert_eq!(d.accounts.escrow_account, e);
}

#[test]
fn charge_more_with_takes_the_vault_test_it_is_given() {
    let e = opened(500, 3, 0, 0);
    let mut ctx = charge_more_ctx(e, 250);
    assert_eq!(charge_more_with(&mut ctx, 3, 250, false), Err(ErrorCode::AuthorizationFailure));
    assert_eq!(ctx.accounts.escrow_account.amount, 500);
    let requests = charge_more_with(&mut ctx, 3, 250, true).unwrap();
    assert_eq!(ctx.accounts.escrow_account.amount, 750);
    assert_eq!(
        requests,
        vec![CustodyRequest::Transfer {
            accounts: Transfer { from: key(BUYER_TOKENS), to: vault(3), authority: key(BUYER) },
            amount: 250,
            signer_bump: None,
        }]
    );
}
