use vstd::prelude::*;

use crate::authority::{authority_matches, check_authority};
use crate::creation::{check_owner_set, owner_set_ok};
use crate::error::ErrorCode;
use crate::key::Pubkey;
use crate::state::Multisig;

verus! {

/// The threshold `set_owners` leaves behind: clamped down to the new
/// owner count when the old threshold would otherwise be unreachable.
pub open spec fn clamped_threshold(old_threshold: u64, new_owner_count: nat) -> int {
    if new_owner_count < old_threshold {
        new_owner_count as int
    } else {
        old_threshold as int
    }
}

/// Replaces the group's owner list.
///
/// Reachable only with the group's derived authority in hand, which only
/// execution of a quorum-approved proposal presents. Clamps the threshold
/// down to the new owner count when needed, and bumps the version counter
/// by exactly one, which invalidates every outstanding proposal.
pub fn set_owners(
    multisig: &mut Multisig,
    multisig_key: &Pubkey,
    program_id: &Pubkey,
    authority: &Pubkey,
    owners: Vec<Pubkey>,
) -> (r: Result<(), ErrorCode>)
    requires
        old(multisig).wf(),
        old(multisig).owner_set_seqno < u32::MAX,
    ensures
        final(multisig).wf(),
        r is Ok <==> authority_matches(program_id@, multisig_key@, old(multisig).nonce, authority@)
            && owner_set_ok(owners@),
        match r {
            Ok(()) => {
                &&& authority_matches(program_id@, multisig_key@, old(multisig).nonce, authority@)
                &&& owner_set_ok(owners@)
                &&& final(multisig).owners@ == owners@
                &&& final(multisig).threshold == clamped_threshold(
                    old(multisig).threshold,
                    owners@.len(),
                )
                &&& final(multisig).owner_set_seqno == old(multisig).owner_set_seqno + 1
                &&& final(multisig).description == old(multisig).description
                &&& final(multisig).nonce == old(multisig).nonce
                &&& final(multisig).lamports == old(multisig).lamports
            },
            Err(e) => {
                &&& *final(multisig) == *old(multisig)
                &&& (e == ErrorCode::Unauthorized <==> !authority_matches(
                    program_id@,
                    multisig_key@,
                    old(multisig).nonce,
                    authority@,
                ))
                &&& (e == ErrorCode::InvalidOwnerSet <==> authority_matches(
                    program_id@,
                    multisig_key@,
                    old(multisig).nonce,
                    authority@,
                ) && !owner_set_ok(owners@))
            },
        },
{
    if !check_authority(program_id, multisig_key, multisig.nonce, authority) {
        return Err(ErrorCode::Unauthorized);
    }
    if !check_owner_set(&owners) {
        return Err(ErrorCode::InvalidOwnerSet);
    }
    if (owners.len() as u64) < multisig.threshold {
        multisig.threshold = owners.len() as u64;
    }
    multisig.owners = owners;
    multisig.owner_set_seqno = multisig.owner_set_seqno + 1;
    Ok(())
}

/// Sets the group's approval threshold.
///
/// Reachable only with the group's derived authority in hand. The new
/// threshold must be between one and the owner count. The version
/// counter is left alone: a threshold-only change does not invalidate
/// in-flight bitmaps, whose size depends only on the owner count.
pub fn change_threshold(
    multisig: &mut Multisig,
    multisig_key: &Pubkey,
    program_id: &Pubkey,
    authority: &Pubkey,
    threshold: u64,
) -> (r: Result<(), ErrorCode>)
    requires
        old(multisig).wf(),
    ensures
        final(multisig).wf(),
        final(multisig).owner_set_seqno == old(multisig).owner_set_seqno,
        r is Ok <==> authority_matches(program_id@, multisig_key@, old(multisig).nonce, authority@)
            && 1 <= threshold <= old(multisig).owners@.len(),
        match r {
            Ok(()) => {
                &&& authority_matches(program_id@, multisig_key@, old(multisig).nonce, authority@)
                &&& 1 <= threshold <= old(multisig).owners@.len()
                &&& final(multisig).threshold == threshold
                &&& final(multisig).owners@ == old(multisig).owners@
                &&& final(multisig).description == old(multisig).description
                &&& final(multisig).nonce == old(multisig).nonce
                &&& final(multisig).lamports == old(multisig).lamports
            },
            Err(e) => {
                &&& *final(multisig) == *old(multisig)
                &&& (e == ErrorCode::Unauthorized <==> !authority_matches(
                    program_id@,
                    multisig_key@,
                    old(multisig).nonce,
                    authority@,
                ))
                &&& (e == ErrorCode::InvalidThreshold <==> authority_matches(
                    program_id@,
                    multisig_key@,
                    old(multisig).nonce,
                    authority@,
                ) && !(1 <= threshold <= old(multisig).owners@.len()))
            },
        },
{
    if !check_authority(program_id, multisig_key, multisig.nonce, authority) {
        return Err(ErrorCode::Unauthorized);
    }
    if threshold < 1 || threshold > multisig.owners.len() as u64 {
        return Err(ErrorCode::InvalidThreshold);
    }
    multisig.threshold = threshold;
    Ok(())
}

/// Replaces the owner list and sets the threshold as one logical unit,
/// under a single authority check: either both take effect, with one
/// version bump, or the group is left untouched.
pub fn set_owners_and_change_threshold(
    multisig: &mut Multisig,
    multisig_key: &Pubkey,
    program_id: &Pubkey,
    authority: &Pubkey,
    owners: Vec<Pubkey>,
    threshold: u64,
) -> (r: Result<(), ErrorCode>)
    requires
        old(multisig).wf(),
        old(multisig).owner_set_seqno < u32::MAX,
    ensures
        final(multisig).wf(),
        r is Ok <==> authority_matches(program_id@, multisig_key@, old(multisig).nonce, authority@)
            && owner_set_ok(owners@) && 1 <= threshold <= owners@.len(),
        match r {
            Ok(()) => {
                &&& authority_matches(program_id@, multisig_key@, old(multisig).nonce, authority@)
                &&& owner_set_ok(owners@)
                &&& 1 <= threshold <= owners@.len()
                &&& final(multisig).owners@ == owners@
                &&& final(multisig).threshold == threshold
                &&& final(multisig).owner_set_seqno == old(multisig).owner_set_seqno + 1
                &&& final(multisig).description == old(multisig).description
                &&& final(multisig).nonce == old(multisig).nonce
                &&& final(multisig).lamports == old(multisig).lamports
            },
            Err(e) => {
                &&& *final(multisig) == *old(multisig)
                &&& (e == ErrorCode::Unauthorized <==> !authority_matches(
                    program_id@,
                    multisig_key@,
                    old(multisig).nonce,
                    authority@,
                ))
                &&& (e == ErrorCode::InvalidOwnerSet <==> authority_matches(
                    program_id@,
                    multisig_key@,
                    old(multisig).nonce,
                    authority@,
                ) && !owner_set_ok(owners@))
                &&& (e == ErrorCode::InvalidThreshold <==> authority_matches(
                    program_id@,
                    multisig_key@,
                    old(multisig).nonce,
                    authority@,
                ) && owner_set_ok(owners@) && !(1 <= threshold <= owners@.len()))
            },
        },
{
    if !check_authority(program_id, multisig_key, multisig.nonce, authority) {
        return Err(ErrorCode::Unauthorized);
    }
    if !check_owner_set(&owners) {
        return Err(ErrorCode::InvalidOwnerSet);
    }
    if threshold < 1 || threshold > owners.len() as u64 {
        return Err(ErrorCode::InvalidThreshold);
    }
    multisig.threshold = threshold;
    multisig.owners = owners;
    multisig.owner_set_seqno = multisig.owner_set_seqno + 1;
    Ok(())
}

} // verus!
