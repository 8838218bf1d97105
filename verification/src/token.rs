use vstd::prelude::*;

use crate::address::Address;
use crate::authority::DerivedAuthority;

verus! {

/// A token account of the ledger: a balance of one mint, spendable only by
/// its declared authority.
#[derive(Debug)]
pub struct TokenAccount {
    /// The account's own ledger address.
    pub address: Address,
    /// The mint whose units the account holds.
    pub mint: Address,
    /// The sole spending authority over the balance.
    pub authority: Address,
    /// The balance, in base units of the mint.
    pub amount: u64,
}

impl TokenAccount {
    /// Every address held by the account is a well-formed ledger address.
    pub open spec fn wf(&self) -> bool {
        &&& self.address.wf()
        &&& self.mint.wf()
        &&& self.authority.wf()
    }
}

/// The ways the ledger's two primitives can reject a request. Each request
/// either takes full effect or fails cleanly with one of these, moving no
/// balance at all.
#[derive(Clone, Copy, PartialEq, Eq, Structural, Debug)]
pub enum TokenLedgerError {
    /// The signing capability does not match the source account's authority.
    AuthorityMismatch,
    /// Source and destination hold different mints.
    MintMismatch,
    /// The source balance is smaller than the requested amount.
    InsufficientFunds,
    /// The destination balance cannot take the amount without overflow.
    BalanceOverflow,
    /// A close was requested on an account that still holds a balance.
    NonEmptyAccount,
}

/// The ledger's transfer primitive: moves `amount` from `from` to `to` when
/// the capability signs for `from`'s authority, the mints agree, the balance
/// suffices and the destination has room; otherwise it fails cleanly with
/// the first violated condition and leaves both accounts untouched.
pub fn transfer_tokens(
    from: &mut TokenAccount,
    to: &mut TokenAccount,
    amount: u64,
    authority: &DerivedAuthority,
) -> (r: Result<(), TokenLedgerError>)
    ensures
        r is Ok <==> {
            &&& authority.address@ == old(from).authority@
            &&& old(from).mint@ == old(to).mint@
            &&& amount <= old(from).amount
            &&& old(to).amount + amount <= u64::MAX
        },
        r is Ok ==> {
            &&& final(from).amount == old(from).amount - amount
            &&& final(to).amount == old(to).amount + amount
        },
        r is Err ==> *final(from) == *old(from) && *final(to) == *old(to),
        final(from).address == old(from).address,
        final(from).mint == old(from).mint,
        final(from).authority == old(from).authority,
        final(to).address == old(to).address,
        final(to).mint == old(to).mint,
        final(to).authority == old(to).authority,
        r == Err::<(), TokenLedgerError>(TokenLedgerError::AuthorityMismatch) <==> authority.address@
            != old(from).authority@,
        r == Err::<(), TokenLedgerError>(TokenLedgerError::MintMismatch) <==> {
            &&& authority.address@ == old(from).authority@
            &&& old(from).mint@ != old(to).mint@
        },
        r == Err::<(), TokenLedgerError>(TokenLedgerError::InsufficientFunds) <==> {
            &&& authority.address@ == old(from).authority@
            &&& old(from).mint@ == old(to).mint@
            &&& amount > old(from).amount
        },
        r == Err::<(), TokenLedgerError>(TokenLedgerError::BalanceOverflow) <==> {
            &&& authority.address@ == old(from).authority@
            &&& old(from).mint@ == old(to).mint@
            &&& amount <= old(from).amount
            &&& old(to).amount + amount > u64::MAX
        },
{
    if !authority.address.equals(&from.authority) {
        return Err(TokenLedgerError::AuthorityMismatch);
    }
    if !from.mint.equals(&to.mint) {
        return Err(TokenLedgerError::MintMismatch);
    }
    if amount > from.amount {
        return Err(TokenLedgerError::InsufficientFunds);
    }
    if amount > u64::MAX - to.amount {
        return Err(TokenLedgerError::BalanceOverflow);
    }
    from.amount = from.amount - amount;
    to.amount = to.amount + amount;
    Ok(())
}

/// The ledger's close primitive: destroys a fully drained token account and
/// returns its storage deposit to the recipient. A close signed by the wrong
/// capability, or of an account that still holds a balance, fails cleanly,
/// hands the account back untouched and moves no deposit.
pub fn close_token_account(
    account: TokenAccount,
    account_deposit: u64,
    recipient_deposit: &mut u64,
    authority: &DerivedAuthority,
) -> (r: Result<(), (TokenAccount, TokenLedgerError)>)
    requires
        *old(recipient_deposit) + account_deposit <= u64::MAX,
    ensures
        r is Ok <==> authority.address@ == account.authority@ && account.amount == 0,
        r is Ok ==> *final(recipient_deposit) == *old(recipient_deposit) + account_deposit,
        r matches Err((acc, e)) ==> {
            &&& acc == account
            &&& *final(recipient_deposit) == *old(recipient_deposit)
            &&& (e == TokenLedgerError::AuthorityMismatch <==> authority.address@
                != account.authority@)
            &&& (e == TokenLedgerError::NonEmptyAccount <==> authority.address@
                == account.authority@ && account.amount != 0)
        },
{
    if !authority.address.equals(&account.authority) {
        return Err((account, TokenLedgerError::AuthorityMismatch));
    }
    if account.amount != 0 {
        return Err((account, TokenLedgerError::NonEmptyAccount));
    }
    *recipient_deposit = *recipient_deposit + account_deposit;
    Ok(())
}

} // verus!
