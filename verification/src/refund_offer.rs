use vstd::prelude::*;

use crate::address::Address;
use crate::authority::derive_authority;
use crate::authority::derived_offer_address;
use crate::error::ErrorCode;
use crate::offer::Offer;
use crate::token::TokenAccount;
use crate::token::close_token_account;
use crate::token::transfer_tokens;

verus! {

/// The full account set a refund call receives: the signer, the mint, the
/// maker's token account, the offer record with its own address and storage
/// deposit, and the vault with its storage deposit.
#[derive(Debug)]
#[verifier::ext_equal]
pub struct RefundOffer {
    /// The program that owns the offer record; scopes every derivation.
    pub program_id: Address,
    /// The authenticated signer asking for the refund.
    pub maker: Address,
    /// The signer's storage-deposit balance.
    pub maker_lamports: u64,
    /// The mint of the deposited token.
    pub token_mint_a: Address,
    /// The maker's own token account for that mint.
    pub maker_token_account_a: TokenAccount,
    /// The address the offer record is stored at.
    pub offer_address: Address,
    /// The storage deposit held by the offer record.
    pub offer_lamports: u64,
    /// The offer record itself.
    pub offer: Offer,
    /// The vault holding the deposited tokens.
    pub vault: TokenAccount,
    /// The storage deposit held by the vault.
    pub vault_lamports: u64,
}

impl RefundOffer {
    /// Every address in the account set is a well-formed ledger address.
    pub open spec fn wf(&self) -> bool {
        &&& self.program_id.wf()
        &&& self.maker.wf()
        &&& self.token_mint_a.wf()
        &&& self.maker_token_account_a.wf()
        &&& self.offer_address.wf()
        &&& self.offer.wf()
        &&& self.vault.wf()
    }

    /// The caller is the account the offer record names as its maker.
    pub open spec fn signer_is_maker(&self) -> bool {
        self.maker@ == self.offer.maker@
    }

    /// The maker's token account is bound to the deposited mint and owned by
    /// the maker.
    pub open spec fn maker_account_bound(&self) -> bool {
        &&& self.maker_token_account_a.mint@ == self.token_mint_a@
        &&& self.maker_token_account_a.authority@ == self.maker@
    }

    /// The offer record itself names the supplied mint as the deposited one.
    pub open spec fn offer_mint_bound(&self) -> bool {
        self.offer.token_mint_a@ == self.token_mint_a@
    }

    /// The record's stored id and bump re-derive the record's own address.
    pub open spec fn derivation_ok(&self) -> bool {
        derived_offer_address(self.program_id@, self.offer.id, self.offer.bump) == Some(
            self.offer_address@,
        )
    }

    /// The vault is the token account for the deposited mint whose sole
    /// spending authority is the offer record's address.
    pub open spec fn vault_bound(&self) -> bool {
        &&& self.vault.mint@ == self.token_mint_a@
        &&& self.vault.authority@ == self.offer_address@
    }

    /// All relationship checks a refund validates before any mutation.
    pub open spec fn bindings_ok(&self) -> bool {
        &&& self.signer_is_maker()
        &&& self.maker_account_bound()
        &&& self.offer_mint_bound()
        &&& self.derivation_ok()
        &&& self.vault_bound()
    }
}

/// What remains in the maker's hands after a successful refund: the token
/// account with the refunded balance, and the storage-deposit balance grown
/// by both reclaimed deposits. The vault and the offer record no longer
/// exist.
#[derive(Debug)]
pub struct RefundOutcome {
    /// The maker's token account after the vault's full balance moved in.
    pub maker_token_account_a: TokenAccount,
    /// The maker's storage-deposit balance after both reclamations.
    pub maker_lamports: u64,
}

/// What a refund call on this account set must come to: the first failed
/// validation check names its error, a withdrawal that would overflow the
/// maker's balance fails as a withdrawal, and everything else succeeds.
pub open spec fn refund_decision(a: RefundOffer) -> Result<(), ErrorCode> {
    if !a.signer_is_maker() {
        Err(ErrorCode::AccountBindingMismatch)
    } else if !a.maker_account_bound() {
        Err(ErrorCode::AccountBindingMismatch)
    } else if !a.offer_mint_bound() {
        Err(ErrorCode::AccountBindingMismatch)
    } else if !a.derivation_ok() {
        Err(ErrorCode::InvalidAuthorityDerivation)
    } else if !a.vault_bound() {
        Err(ErrorCode::AccountBindingMismatch)
    } else if a.maker_token_account_a.amount + a.vault.amount > u64::MAX {
        Err(ErrorCode::FailedVaultWithdrawal)
    } else {
        Ok(())
    }
}

/// Handles a refund: validates every account relationship, re-derives the
/// vault's authority from the record's stored id and bump, returns the
/// vault's entire balance to the maker, then closes the vault and the offer
/// record, returning both storage deposits to the maker.
///
/// On success the vault and the offer record are consumed: only the maker's
/// grown balances remain. On any failure the whole untouched account set is
/// handed back beside the error, so nothing is destroyed and no balance has
/// moved.
pub fn refund_offer(accounts: RefundOffer) -> (r: Result<
    RefundOutcome,
    (RefundOffer, ErrorCode),
>)
    requires
        accounts.wf(),
        accounts.maker_lamports + accounts.vault_lamports + accounts.offer_lamports
            <= u64::MAX,
    ensures
        r is Ok <==> refund_decision(accounts) is Ok,
        r matches Ok(out) ==> {
            &&& out.maker_token_account_a.address == accounts.maker_token_account_a.address
            &&& out.maker_token_account_a.mint == accounts.maker_token_account_a.mint
            &&& out.maker_token_account_a.authority
                == accounts.maker_token_account_a.authority
            &&& out.maker_token_account_a.amount == accounts.maker_token_account_a.amount
                + accounts.vault.amount
            &&& out.maker_lamports == accounts.maker_lamports + accounts.vault_lamports
                + accounts.offer_lamports
        },
        r matches Err(p) ==> p.0 == accounts && refund_decision(accounts) == Err::<
            (),
            ErrorCode,
        >(p.1),
{
    // Validation, before any mutation: the caller must be the maker ...
    if !accounts.maker.equals(&accounts.offer.maker) {
        return Err((accounts, ErrorCode::AccountBindingMismatch));
    }
    // ... the maker's token account must hold the deposited mint for the maker ...
    if !accounts.maker_token_account_a.mint.equals(&accounts.token_mint_a) {
        return Err((accounts, ErrorCode::AccountBindingMismatch));
    }
    if !accounts.maker_token_account_a.authority.equals(&accounts.maker) {
        return Err((accounts, ErrorCode::AccountBindingMismatch));
    }
    // ... the record must name that same mint ...
    if !accounts.offer.token_mint_a.equals(&accounts.token_mint_a) {
        return Err((accounts, ErrorCode::AccountBindingMismatch));
    }
    // ... the record must re-derive to its own address ...
    let authority_opt = derive_authority(
        &accounts.program_id,
        accounts.offer.id,
        accounts.offer.bump,
    );
    let authority = match authority_opt {
        Some(auth) => {
            if !auth.address.equals(&accounts.offer_address) {
                return Err((accounts, ErrorCode::InvalidAuthorityDerivation));
            }
            auth
        },
        None => {
            return Err((accounts, ErrorCode::InvalidAuthorityDerivation));
        },
    };
    // ... and the vault must hold that mint under the record's authority.
    if !accounts.vault.mint.equals(&accounts.token_mint_a) {
        return Err((accounts, ErrorCode::AccountBindingMismatch));
    }
    if !accounts.vault.authority.equals(&accounts.offer_address) {
        return Err((accounts, ErrorCode::AccountBindingMismatch));
    }

    let mut a = accounts;

    // The refund always moves the entire balance: read it first.
    let vault_balance = a.vault.amount;

    // Withdraw the full balance to the maker, signed by the derived authority.
    match transfer_tokens(
        &mut a.vault,
        &mut a.maker_token_account_a,
        vault_balance,
        &authority,
    ) {
        Ok(_) => {},
        Err(_) => {
            return Err((a, ErrorCode::FailedVaultWithdrawal));
        },
    }

    // Close the drained vault, returning its deposit to the maker.
    let mut maker_deposit = a.maker_lamports;
    match close_token_account(a.vault, a.vault_lamports, &mut maker_deposit, &authority) {
        Ok(_) => {},
        Err((vault_back, _)) => {
            a.vault = vault_back;
            return Err((a, ErrorCode::FailedVaultClosure));
        },
    }

    // Closing the validated offer record returns its deposit to the maker too.
    let maker_lamports = maker_deposit + a.offer_lamports;

    Ok(RefundOutcome { maker_token_account_a: a.maker_token_account_a, maker_lamports })
}

/// A refund asked for by a signer other than the record's maker always comes
/// to a binding mismatch; together with the handler's postcondition this
/// means every account is handed back untouched.
pub proof fn lemma_non_maker_always_rejected(a: RefundOffer)
    requires
        a.maker@ != a.offer.maker@,
    ensures
        refund_decision(a) == Err::<(), ErrorCode>(ErrorCode::AccountBindingMismatch),
{
}

/// A fully bound refund is owed success whenever the maker's balance has
/// room for the vault's: with every validation check met, the decision is
/// success.
pub proof fn lemma_valid_refund_succeeds(a: RefundOffer)
    requires
        a.bindings_ok(),
        a.maker_token_account_a.amount + a.vault.amount <= u64::MAX,
    ensures
        refund_decision(a) is Ok,
{
}

/// Retrying after a failed vault closure: the vault is by then drained, so a
/// second refund on the same account set completes successfully and moves no
/// further funds — the maker's token balance grows by the vault's balance of
/// zero.
pub proof fn lemma_retry_after_drain_succeeds(a: RefundOffer)
    requires
        a.bindings_ok(),
        a.vault.amount == 0,
    ensures
        refund_decision(a) is Ok,
        a.maker_token_account_a.amount + a.vault.amount == a.maker_token_account_a.amount,
{
}

/// In this model of the ledger a successful withdrawal leaves the vault
/// drained, and a drained vault always closes: no refund decision ever
/// surfaces a closure failure.
pub proof fn lemma_closure_failure_unreachable(a: RefundOffer)
    ensures
        refund_decision(a) != Err::<(), ErrorCode>(ErrorCode::FailedVaultClosure),
{
}

} // verus!
