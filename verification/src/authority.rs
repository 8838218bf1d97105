use vstd::prelude::*;
use vstd::bytes::spec_u64_to_le_bytes;
use vstd::bytes::u64_to_le_bytes;

use crate::address::Address;

verus! {

/// What the ledger's program-address derivation returns for the seed triple
/// `(tag, id_bytes, bump_byte)` under a given program id: `Some` of the
/// 32-byte derived address when the seeds hash to a point off the signing
/// curve, `None` when no address can be derived from them. The computation
/// is hash-based and depends on its arguments alone, so it carries no
/// shorter description than this name.
pub uninterp spec fn program_address_of(
    tag: Seq<u8>,
    id_bytes: Seq<u8>,
    bump_byte: Seq<u8>,
    program_id: Seq<u8>,
) -> Option<Seq<u8>>;

/// The byte constant identifying the offer record class, the first seed of
/// every offer-address derivation: the ASCII bytes of "offer".
pub open spec fn spec_offer_seed_tag() -> Seq<u8> {
    seq![111u8, 102u8, 102u8, 101u8, 114u8]
}

/// The executable form of the offer seed tag.
pub fn offer_seed_tag() -> (r: Vec<u8>)
    ensures
        r@ == spec_offer_seed_tag(),
{
    let mut v: Vec<u8> = Vec::new();
    v.push(111);
    v.push(102);
    v.push(102);
    v.push(101);
    v.push(114);
    proof {
        assert(v@ =~= spec_offer_seed_tag());
    }
    v
}

/// Relies on `Pubkey::create_program_address` (re-exported by anchor_lang):
/// the result is a pure function of the seeds and the program id alone;
/// `Ok` carries the 32-byte derived address, and `Err` means the seeds
/// derive no valid address (they land on the signing curve, or a seed is
/// over the ledger's seed-length limit).
#[verifier::external_body]
fn create_program_address(
    tag: &Vec<u8>,
    id_bytes: &Vec<u8>,
    bump_byte: &Vec<u8>,
    program_id: &Address,
) -> (r: Option<Address>)
    requires
        program_id.wf(),
    ensures
        match r {
            Some(a) => program_address_of(tag@, id_bytes@, bump_byte@, program_id@)
                == Some(a@) && a@.len() == 32,
            None => program_address_of(tag@, id_bytes@, bump_byte@, program_id@)
                == None::<Seq<u8>>,
        },
{
    let pid = anchor_lang::prelude::Pubkey::new_from_array(
        program_id.bytes.as_slice().try_into().unwrap(),
    );
    match anchor_lang::prelude::Pubkey::create_program_address(
        &[tag.as_slice(), id_bytes.as_slice(), bump_byte.as_slice()],
        &pid,
    ) {
        Ok(p) => Some(Address { bytes: p.to_bytes().to_vec() }),
        Err(_) => None,
    }
}

/// The address an offer record with this `id` and `bump` must live at under
/// `program_id`: the derivation of (offer tag, little-endian id, bump).
pub open spec fn derived_offer_address(program_id: Seq<u8>, id: u64, bump: u8) -> Option<
    Seq<u8>,
> {
    program_address_of(spec_offer_seed_tag(), spec_u64_to_le_bytes(id), seq![bump], program_id)
}

/// Re-derives the offer record's address from its stored id and bump.
pub fn derive_offer_address(program_id: &Address, id: u64, bump: u8) -> (r: Option<Address>)
    requires
        program_id.wf(),
    ensures
        match r {
            Some(a) => derived_offer_address(program_id@, id, bump) == Some(a@) && a.wf(),
            None => derived_offer_address(program_id@, id, bump) == None::<Seq<u8>>,
        },
{
    let tag = offer_seed_tag();
    let id_bytes = u64_to_le_bytes(id);
    let mut bump_byte: Vec<u8> = Vec::new();
    bump_byte.push(bump);
    proof {
        assert(bump_byte@ =~= seq![bump]);
    }
    create_program_address(&tag, &id_bytes, &bump_byte, program_id)
}

/// A non-key signing capability for the program over one offer's vault: the
/// derived address together with the seeds that produce it. It is used only
/// as a signing proof when the program acts on the vault's behalf, and
/// carries no other privilege.
#[derive(Debug)]
pub struct DerivedAuthority {
    /// The derived address the capability signs for.
    pub address: Address,
    /// The offer id the derivation was scoped to.
    pub id: u64,
    /// The derivation salt.
    pub bump: u8,
}

impl DerivedAuthority {
    /// The capability is genuine under `program_id`: its address is exactly
    /// the one its own seeds re-derive.
    pub open spec fn valid_for(&self, program_id: Seq<u8>) -> bool {
        &&& self.address.wf()
        &&& derived_offer_address(program_id, self.id, self.bump) == Some(self.address@)
    }
}

/// Produces the derived-authority capability for `(id, bump)`, or `None`
/// when that pair derives no address at all.
pub fn derive_authority(program_id: &Address, id: u64, bump: u8) -> (r: Option<DerivedAuthority>)
    requires
        program_id.wf(),
    ensures
        match r {
            Some(auth) => auth.id == id && auth.bump == bump && auth.valid_for(program_id@),
            None => derived_offer_address(program_id@, id, bump) == None::<Seq<u8>>,
        },
{
    match derive_offer_address(program_id, id, bump) {
        Some(address) => Some(DerivedAuthority { address, id, bump }),
        None => None,
    }
}

/// Re-derivation is a pure, deterministic function of the program id, the
/// offer id and the bump: deriving twice from the same inputs always yields
/// the same outcome, address and all.
pub proof fn lemma_rederivation_deterministic(program_id: Seq<u8>, id: u64, bump: u8)
    ensures
        derived_offer_address(program_id, id, bump) == derived_offer_address(
            program_id,
            id,
            bump,
        ),
{
}

} // verus!
