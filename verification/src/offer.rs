use vstd::prelude::*;

use crate::address::Address;

verus! {

/// One outstanding escrow: the durable record the creation flow persists and
/// the refund flow consumes. Its address on the ledger is derived from its
/// `id`, with `bump` as the stored derivation salt.
#[derive(Debug)]
pub struct Offer {
    /// Unique identifier chosen at creation; part of the address-derivation seed.
    pub id: u64,
    /// The account entitled to refund or otherwise control this offer.
    pub maker: Address,
    /// The mint of the token the maker deposited.
    pub token_mint_a: Address,
    /// The mint of the token the maker wants in exchange.
    pub token_mint_b: Address,
    /// The amount of token B required to fulfill the offer.
    pub token_b_wanted_amount: u64,
    /// The canonical derivation salt that makes the record's address valid;
    /// stored so the authority proof can be reconstructed without search.
    pub bump: u8,
}

impl Offer {
    /// Every address held by the record is a well-formed ledger address.
    pub open spec fn wf(&self) -> bool {
        &&& self.maker.wf()
        &&& self.token_mint_a.wf()
        &&& self.token_mint_b.wf()
    }
}

} // verus!
