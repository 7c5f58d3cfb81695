use vstd::prelude::*;

use crate::error::ErrorCode;
use crate::key::Key;

verus! {

/// The address that the runtime derives from `seeds` for the program
/// `program_id`, or `None` where the seeds give no valid address.
pub uninterp spec fn program_address_of(seeds: Seq<Seq<u8>>, program_id: Seq<u8>) -> Option<Seq<u8>>;

/// Relies on `Pubkey::create_program_address` (solana-program, re-exported by
/// anchor_lang): it hashes the seeds with the program id and returns the
/// address, or an error where the hash lies on the ed25519 curve or a seed is
/// too long. The result depends on the seeds and the program id alone.
#[verifier::external_body]
fn create_program_address(tag: &Vec<u8>, owner: &Key, bump: u8, program_id: &Key) -> (r: Option<Key>)
    ensures
        r is Some <==> program_address_of(seq![tag@, owner@, seq![bump]], program_id@) is Some,
        r is Some ==> program_address_of(seq![tag@, owner@, seq![bump]], program_id@) == Some(
            r->0@,
        ),
{
    let program = anchor_lang::prelude::Pubkey::new_from_array(program_id.bytes);
    let seeds: [&[u8]; 3] = [tag.as_slice(), &owner.bytes[..], &[bump]];
    anchor_lang::prelude::Pubkey::create_program_address(&seeds, &program).ok().map(
        |k| Key { bytes: k.to_bytes() },
    )
}

/// The namespace tag of every vault address: the ASCII bytes of `vault`.
pub open spec fn vault_tag() -> Seq<u8> {
    seq![118u8, 97u8, 117u8, 108u8, 116u8]
}

/// The seeds of the vault of `owner` under the discriminator `bump`.
pub open spec fn vault_seeds(owner: Seq<u8>, bump: u8) -> Seq<Seq<u8>> {
    seq![vault_tag(), owner, seq![bump]]
}

/// Whether `bump` gives `owner` a valid vault address under `program_id`.
pub open spec fn is_valid_bump(owner: Seq<u8>, program_id: Seq<u8>, bump: u8) -> bool {
    program_address_of(vault_seeds(owner, bump), program_id) is Some
}

/// Whether `bump` is the lowest discriminator that gives a valid address.
pub open spec fn is_lowest_valid_bump(owner: Seq<u8>, program_id: Seq<u8>, bump: u8) -> bool {
    &&& is_valid_bump(owner, program_id, bump)
    &&& forall|b: u8| b < bump ==> !is_valid_bump(owner, program_id, b)
}

/// Whether no discriminator at all gives a valid address.
pub open spec fn derivation_exhausted(owner: Seq<u8>, program_id: Seq<u8>) -> bool {
    forall|b: u8| !is_valid_bump(owner, program_id, b)
}

/// A vault's derived address with the discriminator that produced it.
#[derive(Clone, Copy, Debug)]
pub struct VaultIdentity {
    pub address: Key,
    pub bump: u8,
}

/// Whether `id` is the identity derived for `owner` under `program_id`.
pub open spec fn is_derived_identity(owner: Seq<u8>, program_id: Seq<u8>, id: VaultIdentity) -> bool {
    &&& is_lowest_valid_bump(owner, program_id, id.bump)
    &&& program_address_of(vault_seeds(owner, id.bump), program_id) == Some(id.address@)
}

/// The namespace tag as bytes.
pub fn vault_tag_bytes() -> (r: Vec<u8>)
    ensures
        r@ == vault_tag(),
{
    let r: Vec<u8> = vec![118u8, 97u8, 117u8, 108u8, 116u8];
    assert(r@ =~= vault_tag());
    r
}

/// Derives the vault of `owner` under `program_id`: tries the discriminators
/// from 0 upwards and returns the first that gives a valid address.
pub fn derive_vault_identity(owner: &Key, program_id: &Key) -> (r: Result<VaultIdentity, ErrorCode>)
    ensures
        r is Ok <==> !derivation_exhausted(owner@, program_id@),
        r is Ok ==> is_derived_identity(owner@, program_id@, r->Ok_0),
        r is Err ==> r == Err::<VaultIdentity, ErrorCode>(ErrorCode::DerivationExhausted),
{
    let tag = vault_tag_bytes();
    let mut b: u16 = 0;
    while b < 256
        invariant
            b <= 256,
            tag@ == vault_tag(),
            forall|c: u8| (c as u16) < b ==> !is_valid_bump(owner@, program_id@, c),
        decreases 256 - b,
    {
        let bump = b as u8;
        match create_program_address(&tag, owner, bump, program_id) {
            Some(address) => {
                assert(vault_seeds(owner@, bump) == seq![tag@, owner@, seq![bump]]);
                assert(is_valid_bump(owner@, program_id@, bump));
                return Ok(VaultIdentity { address, bump });
            },
            None => {
                assert(vault_seeds(owner@, bump) == seq![tag@, owner@, seq![bump]]);
            },
        }
        b = b + 1;
    }
    Err(ErrorCode::DerivationExhausted)
}

/// The capability to sign an outgoing transfer on a vault's behalf. Only the
/// library makes one, from a vault record's owner and stored bump.
#[derive(Clone, Copy, Debug)]
pub struct VaultSigner {
    owner: Key,
    bump: u8,
}

impl View for VaultSigner {
    type V = (Seq<u8>, u8);

    closed spec fn view(&self) -> (Seq<u8>, u8) {
        (self.owner@, self.bump)
    }
}

impl VaultSigner {
    /// The signer for the vault of `owner` with discriminator `bump`.
    pub(crate) fn from_record(owner: Key, bump: u8) -> (r: VaultSigner)
        ensures
            r@ == (owner@, bump),
    {
        VaultSigner { owner, bump }
    }

    /// The seeds that prove the vault's authority to the custody service.
    pub fn seeds(&self) -> (r: Vec<Vec<u8>>)
        ensures
            r@.len() == 3,
            forall|i: int| 0 <= i < 3 ==> r@[i]@ == vault_seeds(self@.0, self@.1)[i],
    {
        let mut r: Vec<Vec<u8>> = Vec::new();
        r.push(vault_tag_bytes());
        r.push(self.owner.to_vec());
        r.push(vec![self.bump]);
        r
    }

    /// The owner whose vault this signer speaks for.
    pub fn owner(&self) -> (r: Key)
        ensures
            r@ == self@.0,
    {
        self.owner
    }

    /// The discriminator of the vault's address.
    pub fn bump(&self) -> (r: u8)
        ensures
            r == self@.1,
    {
        self.bump
    }
}

} // verus!
