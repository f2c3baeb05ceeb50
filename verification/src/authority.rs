use vstd::prelude::*;

use crate::key::Pubkey;

verus! {

/// The authority identity the host derives from a program id, a group
/// record's address and the group's nonce, or `None` when that nonce
/// yields no valid derived identity. The host's derivation is a pure
/// function of these three inputs, so the value is a fixed if unknown
/// one; nothing else is assumed of it.
pub uninterp spec fn derived_authority(program_id: Seq<u8>, group_key: Seq<u8>, nonce: u8) -> Option<Seq<u8>>;

/// `presented` is exactly the authority identity derived for the group
/// at `group_key` under `program_id`.
pub open spec fn authority_matches(
    program_id: Seq<u8>,
    group_key: Seq<u8>,
    nonce: u8,
    presented: Seq<u8>,
) -> bool {
    derived_authority(program_id, group_key, nonce) == Some(presented)
}

/// Relies on `solana_pubkey::Pubkey::create_program_address`: off the
/// host chain it hashes the seeds and the program id and returns the
/// digest as an address, or `Err(InvalidSeeds)` when the digest lands on
/// the ed25519 curve; either way the outcome depends only on the
/// arguments. With two seeds of 32 and 1 bytes, the only other error,
/// `MaxSeedLengthExceeded`, cannot arise.
#[verifier::external_body]
pub(crate) fn derive_authority(program_id: &Pubkey, group_key: &Pubkey, nonce: u8) -> (r: Option<
    Pubkey,
>)
    ensures
        r matches Some(a) ==> derived_authority(program_id@, group_key@, nonce) == Some(a@),
        r is None ==> derived_authority(program_id@, group_key@, nonce) is None,
{
    let pid = solana_pubkey::Pubkey::new_from_array(program_id.bytes);
    let bump = [nonce];
    let seeds: [&[u8]; 2] = [&group_key.bytes, &bump];
    match solana_pubkey::Pubkey::create_program_address(&seeds, &pid) {
        Ok(pk) => Some(Pubkey { bytes: pk.to_bytes() }),
        Err(_) => None,
    }
}

/// Whether `presented` is the group's derived authority identity.
pub fn check_authority(program_id: &Pubkey, group_key: &Pubkey, nonce: u8, presented: &Pubkey) -> (r:
    bool)
    ensures
        r == authority_matches(program_id@, group_key@, nonce, presented@),
{
    match derive_authority(program_id, group_key, nonce) {
        Some(expected) => crate::key::pubkey_eq(presented, &expected),
        None => false,
    }
}

} // verus!
