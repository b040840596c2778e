//! The program-derived vault authority: a deterministic, key-less identity
//! derived from the program's own identity and a fixed seed label. It is
//! handed the mint authority at initialization, so that only the program
//! itself can later authorize minting.

use vstd::prelude::*;

use crate::identity::Identity;

verus! {

/// What the host chain's address derivation returns for a program identity
/// and a seed: the derived address together with its bump nonce, or nothing
/// when no bump in the search range yields a valid derivation. The result is
/// a pure function of the two arguments, so every caller that derives from
/// the same constant seed obtains the same identity.
pub uninterp spec fn pda_of(program_id: Seq<u8>, seed: Seq<u8>) -> Option<(Seq<u8>, u8)>;

/// The view of a derivation result as plain values.
pub open spec fn derived_view(r: Option<(Identity, u8)>) -> Option<(Seq<u8>, u8)> {
    match r {
        Some(p) => Some((p.0@, p.1)),
        None => None,
    }
}

/// The fixed seed label under which the vault authority is derived,
/// the byte string `faucet_authority`.
pub open spec fn faucet_authority_seed() -> Seq<u8> {
    seq![
        102u8, 97u8, 117u8, 99u8, 101u8, 116u8, 95u8, 97u8, 117u8, 116u8, 104u8, 111u8, 114u8,
        105u8, 116u8, 121u8,
    ]
}

/// The vault authority that the program with the given identity derives from
/// the fixed seed label, if the host's identity space admits one.
pub open spec fn vault_authority_of(program_id: Seq<u8>) -> Option<(Seq<u8>, u8)> {
    if program_id.len() == 32 {
        pda_of(program_id, faucet_authority_seed())
    } else {
        None
    }
}

/// The seed label as bytes.
pub fn faucet_authority_seed_bytes() -> (r: Vec<u8>)
    ensures
        r@ == faucet_authority_seed(),
{
    let r: Vec<u8> = vec![
        102u8, 97u8, 117u8, 99u8, 101u8, 116u8, 95u8, 97u8, 117u8, 116u8, 104u8, 111u8, 114u8,
        105u8, 116u8, 121u8,
    ];
    proof {
        assert(r@ =~= faucet_authority_seed());
    }
    r
}

/// Relies on `Pubkey::try_find_program_address` of the host chain's address
/// crate: a pure, deterministic function of the seed and the 32-byte program
/// identity, returning a 32-byte derived address with its bump nonce, or
/// `None` in the statistically improbable event that no bump in the search
/// range yields a valid derivation (it does not panic; derivation limits on
/// seed count and length are reported as `None` as well).
#[verifier::external_body]
fn derive_program_address(program_id: &Identity, seed: &Vec<u8>) -> (r: Option<(Identity, u8)>)
    requires
        program_id@.len() == 32,
    ensures
        derived_view(r) == pda_of(program_id@, seed@),
        (r matches Some(p) ==> p.0@.len() == 32),
{
    let mut arr = [0u8; 32];
    arr.copy_from_slice(program_id.as_bytes().as_slice());
    let pk = anchor_lang::prelude::Pubkey::new_from_array(arr);
    match anchor_lang::prelude::Pubkey::try_find_program_address(&[seed.as_slice()], &pk) {
        Some((addr, bump)) => Some((Identity::from_bytes(addr.to_bytes().to_vec()), bump)),
        None => None,
    }
}

/// Derives the vault authority for the given program identity from the fixed
/// seed label. Every call on the same program identity yields the same
/// derived identity; an identity that is not 32 bytes long admits no
/// derivation.
pub fn find_vault_authority(program_id: &Identity) -> (r: Option<(Identity, u8)>)
    ensures
        derived_view(r) == vault_authority_of(program_id@),
        (r matches Some(p) ==> p.0@.len() == 32),
{
    if program_id.as_bytes().len() != 32 {
        return None;
    }
    let seed = faucet_authority_seed_bytes();
    derive_program_address(program_id, &seed)
}

} // verus!
