//! The refund path of a two-party token-swap escrow.
//!
//! A maker has deposited token A into a vault whose sole spending authority
//! is an address derived deterministically from the offer record's identity.
//! This library models those accounts, re-derives the vault's authority from
//! the record's stored id and bump, and carries out the refund: it validates
//! that the caller is the maker and that every account is bound to the offer,
//! returns the vault's full balance to the maker, and reclaims both accounts'
//! storage deposits.

pub mod address;
pub mod authority;
pub mod error;
pub mod offer;
pub mod refund_offer;
pub mod token;
