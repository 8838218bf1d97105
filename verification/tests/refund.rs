use anchor_lang::prelude::Pubkey;
use escrow::address::Address;
use escrow::authority::derive_offer_address;
use escrow::authority::DerivedAuthority;
use escrow::error::ErrorCode;
use escrow::offer::Offer;
use escrow::refund_offer::refund_offer;
use escrow::refund_offer::RefundOffer;
use escrow::token::close_token_account;
use escrow::token::transfer_tokens;
use escrow::token::TokenAccount;
use escrow::token::TokenLedgerError;

fn addr(byte: u8) -> Address {
    Address { bytes: vec![byte; 32] }
}

fn addr_from(pk: &Pubkey) -> Address {
    Address { bytes: pk.to_bytes().to_vec() }
}

/// A fully bound account set for offer id 42 under program id [7; 32]:
/// maker [2; 32], mint A [3; 32], vault balance 1000, maker balance 50.
fn valid_accounts() -> RefundOffer {
    let program_pk = Pubkey::new_from_array([7u8; 32]);
    let (offer_pk, bump) =
        Pubkey::find_program_address(&[b"offer", &42u64.to_le_bytes()], &program_pk);
    let maker = addr(2);
    let mint_a = addr(3);
    RefundOffer {
        program_id: addr(7),
        maker: maker.clone(),
        maker_lamports: 10,
        token_mint_a: mint_a.clone(),
        maker_token_account_a: TokenAccount {
            address: addr(4),
            mint: mint_a.clone(),
            authority: maker.clone(),
            amount: 50,
        },
        offer_address: addr_from(&offer_pk),
        offer_lamports: 1392,
        offer: Offer {
            id: 42,
            maker,
            token_mint_a: mint_a.clone(),
            token_mint_b: addr(5),
            token_b_wanted_amount: 500,
            bump,
        },
        vault: TokenAccount {
            address: addr(6),
            mint: mint_a,
            authority: addr_from(&offer_pk),
            amount: 1000,
        },
        vault_lamports: 2039280,
    }
}

#[test]
fn rederivation_is_deterministic() {
    let program = addr(7);
    let program_pk = Pubkey::new_from_array([7u8; 32]);
    let (_, bump) =
        Pubkey::find_program_address(&[b"offer", &42u64.to_le_bytes()], &program_pk);
    let first = derive_offer_address(&program, 42, bump).unwrap();
    let second = derive_offer_address(&program, 42, bump).unwrap();
    assert_eq!(first.bytes, second.bytes);
}

#[test]
fn derivation_matches_ledger_search() {
    let program_pk = Pubkey::new_from_array([7u8; 32]);
    let (offer_pk, bump) =
        Pubkey::find_program_address(&[b"offer", &42u64.to_le_bytes()], &program_pk);
    let derived = derive_offer_address(&addr(7), 42, bump).unwrap();
    assert_eq!(derived.bytes, offer_pk.to_bytes().to_vec());
}

#[test]
fn derivation_distinguishes_offer_ids() {
    let program = addr(7);
    let program_pk = Pubkey::new_from_array([7u8; 32]);
    let (_, bump_a) =
        Pubkey::find_program_address(&[b"offer", &42u64.to_le_bytes()], &program_pk);
    let (_, bump_b) =
        Pubkey::find_program_address(&[b"offer", &43u64.to_le_bytes()], &program_pk);
    let of_42 = derive_offer_address(&program, 42, bump_a).unwrap();
    let of_43 = derive_offer_address(&program, 43, bump_b).unwrap();
    assert_ne!(of_42.bytes, of_43.bytes);
}

#[test]
fn refund_by_maker_pays_out_everything() {
    let accounts = valid_accounts();
    let out = refund_offer(accounts).unwrap();
    assert_eq!(out.maker_token_account_a.amount, 1050);
    assert_eq!(out.maker_token_account_a.address.bytes, vec![4u8; 32]);
    assert_eq!(out.maker_lamports, 10 + 2039280 + 1392);
}

#[test]
fn refund_by_non_maker_is_rejected_unchanged() {
    let mut accounts = valid_accounts();
    accounts.maker = addr(9);
    let (back, code) = refund_offer(accounts).unwrap_err();
    assert_eq!(code, ErrorCode::AccountBindingMismatch);
    assert_eq!(back.maker.bytes, vec![9u8; 32]);
    assert_eq!(back.vault.amount, 1000);
    assert_eq!(back.maker_token_account_a.amount, 50);
    assert_eq!(back.maker_lamports, 10);
}

#[test]
fn tampered_offer_address_fails_derivation() {
    let mut accounts = valid_accounts();
    accounts.offer_address.bytes[0] = accounts.offer_address.bytes[0].wrapping_add(1);
    accounts.vault.authority = accounts.offer_address.clone();
    let (back, code) = refund_offer(accounts).unwrap_err();
    assert_eq!(code, ErrorCode::InvalidAuthorityDerivation);
    assert_eq!(back.vault.amount, 1000);
}

#[test]
fn wrong_maker_token_account_owner_is_rejected() {
    let mut accounts = valid_accounts();
    accounts.maker_token_account_a.authority = addr(9);
    let (_, code) = refund_offer(accounts).unwrap_err();
    assert_eq!(code, ErrorCode::AccountBindingMismatch);
}

#[test]
fn wrong_maker_token_account_mint_is_rejected() {
    let mut accounts = valid_accounts();
    accounts.maker_token_account_a.mint = addr(5);
    let (_, code) = refund_offer(accounts).unwrap_err();
    assert_eq!(code, ErrorCode::AccountBindingMismatch);
}

#[test]
fn wrong_vault_mint_is_rejected() {
    let mut accounts = valid_accounts();
    accounts.vault.mint = addr(5);
    let (_, code) = refund_offer(accounts).unwrap_err();
    assert_eq!(code, ErrorCode::AccountBindingMismatch);
}

#[test]
fn wrong_vault_authority_is_rejected() {
    let mut accounts = valid_accounts();
    accounts.vault.authority = addr(9);
    let (_, code) = refund_offer(accounts).unwrap_err();
    assert_eq!(code, ErrorCode::AccountBindingMismatch);
}

#[test]
fn offer_naming_other_mint_is_rejected() {
    let mut accounts = valid_accounts();
    accounts.offer.token_mint_a = addr(5);
    let (_, code) = refund_offer(accounts).unwrap_err();
    assert_eq!(code, ErrorCode::AccountBindingMismatch);
}

#[test]
fn overflowing_withdrawal_fails_without_destruction() {
    let mut accounts = valid_accounts();
    accounts.maker_token_account_a.amount = u64::MAX;
    let (back, code) = refund_offer(accounts).unwrap_err();
    assert_eq!(code, ErrorCode::FailedVaultWithdrawal);
    assert_eq!(back.vault.amount, 1000);
    assert_eq!(back.maker_token_account_a.amount, u64::MAX);
    assert_eq!(back.maker_lamports, 10);
}

#[test]
fn retry_on_drained_vault_completes_without_double_transfer() {
    let mut accounts = valid_accounts();
    accounts.vault.amount = 0;
    let out = refund_offer(accounts).unwrap();
    assert_eq!(out.maker_token_account_a.amount, 50);
    assert_eq!(out.maker_lamports, 10 + 2039280 + 1392);
}

#[test]
fn transfer_moves_exact_amount() {
    let mut from = TokenAccount { address: addr(1), mint: addr(3), authority: addr(8), amount: 700 };
    let mut to = TokenAccount { address: addr(2), mint: addr(3), authority: addr(9), amount: 25 };
    let auth = DerivedAuthority { address: addr(8), id: 1, bump: 255 };
    transfer_tokens(&mut from, &mut to, 300, &auth).unwrap();
    assert_eq!(from.amount, 400);
    assert_eq!(to.amount, 325);
}

#[test]
fn transfer_rejects_wrong_authority() {
    let mut from = TokenAccount { address: addr(1), mint: addr(3), authority: addr(8), amount: 700 };
    let mut to = TokenAccount { address: addr(2), mint: addr(3), authority: addr(9), amount: 25 };
    let auth = DerivedAuthority { address: addr(7), id: 1, bump: 255 };
    let e = transfer_tokens(&mut from, &mut to, 300, &auth).unwrap_err();
    assert_eq!(e, TokenLedgerError::AuthorityMismatch);
    assert_eq!(from.amount, 700);
    assert_eq!(to.amount, 25);
}

#[test]
fn transfer_rejects_mixed_mints() {
    let mut from = TokenAccount { address: addr(1), mint: addr(3), authority: addr(8), amount: 700 };
    let mut to = TokenAccount { address: addr(2), mint: addr(4), authority: addr(9), amount: 25 };
    let auth = DerivedAuthority { address: addr(8), id: 1, bump: 255 };
    let e = transfer_tokens(&mut from, &mut to, 300, &auth).unwrap_err();
    assert_eq!(e, TokenLedgerError::MintMismatch);
}

#[test]
fn transfer_rejects_overdraft() {
    let mut from = TokenAccount { address: addr(1), mint: addr(3), authority: addr(8), amount: 10 };
    let mut to = TokenAccount { address: addr(2), mint: addr(3), authority: addr(9), amount: 25 };
    let auth = DerivedAuthority { address: addr(8), id: 1, bump: 255 };
    let e = transfer_tokens(&mut from, &mut to, 300, &auth).unwrap_err();
    assert_eq!(e, TokenLedgerError::InsufficientFunds);
    assert_eq!(from.amount, 10);
}

#[test]
fn transfer_rejects_destination_overflow() {
    let mut from = TokenAccount { address: addr(1), mint: addr(3), authority: addr(8), amount: 10 };
    let mut to =
        TokenAccount { address: addr(2), mint: addr(3), authority: addr(9), amount: u64::MAX - 5 };
    let auth = DerivedAuthority { address: addr(8), id: 1, bump: 255 };
    let e = transfer_tokens(&mut from, &mut to, 10, &auth).unwrap_err();
    assert_eq!(e, TokenLedgerError::BalanceOverflow);
    assert_eq!(to.amount, u64::MAX - 5);
}

#[test]
fn close_returns_deposit_of_drained_account() {
    let account = TokenAccount { address: addr(1), mint: addr(3), authority: addr(8), amount: 0 };
    let auth = DerivedAuthority { address: addr(8), id: 1, bump: 255 };
    let mut recipient: u64 = 100;
    close_token_account(account, 2039280, &mut recipient, &auth).unwrap();
    assert_eq!(recipient, 100 + 2039280);
}

#[test]
fn close_rejects_account_still_holding_balance() {
    let account = TokenAccount { address: addr(1), mint: addr(3), authority: addr(8), amount: 1 };
    let auth = DerivedAuthority { address: addr(8), id: 1, bump: 255 };
    let mut recipient: u64 = 100;
    let (back, e) = close_token_account(account, 2039280, &mut recipient, &auth).unwrap_err();
    assert_eq!(e, TokenLedgerError::NonEmptyAccount);
    assert_eq!(back.amount, 1);
    assert_eq!(recipient, 100);
}

#[test]
fn close_rejects_wrong_authority() {
    let account = TokenAccount { address: addr(1), mint: addr(3), authority: addr(8), amount: 0 };
    let auth = DerivedAuthority { address: addr(9), id: 1, bump: 255 };
    let mut recipient: u64 = 100;
    let (_, e) = close_token_account(account, 2039280, &mut recipient, &auth).unwrap_err();
    assert_eq!(e, TokenLedgerError::AuthorityMismatch);
    assert_eq!(recipient, 100);
}

#[test]
fn address_equality_is_byte_for_byte() {
    assert!(addr(3).equals(&addr(3)));
    assert!(!addr(3).equals(&addr(4)));
    let mut one_off = addr(3);
    one_off.bytes[31] = 4;
    assert!(!addr(3).equals(&one_off));
}
