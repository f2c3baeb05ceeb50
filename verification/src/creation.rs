use vstd::prelude::*;

use crate::error::ErrorCode;
use crate::key::{distinct_owners, find_owner, is_owner, pubkey_eq, Pubkey};
use crate::state::{Multisig, Transaction, TransactionAccount};

verus! {

/// An owner list that approval bitmaps can be built on: non-empty, with
/// no identity listed twice.
pub open spec fn owner_set_ok(owners: Seq<Pubkey>) -> bool {
    owners.len() > 0 && distinct_owners(owners)
}

/// Whether `owners` is non-empty and free of duplicates.
pub fn check_owner_set(owners: &Vec<Pubkey>) -> (r: bool)
    ensures
        r == owner_set_ok(owners@),
{
    if owners.len() == 0 {
        return false;
    }
    let mut i: usize = 0;
    while i < owners.len()
        invariant
            i <= owners@.len(),
            forall|p: int, q: int| 0 <= p < q < owners@.len() && p < i ==> owners@[p]@ != owners@[q]@,
        decreases owners@.len() - i,
    {
        let mut j: usize = i + 1;
        while j < owners.len()
            invariant
                i < j <= owners@.len(),
                i < owners@.len(),
                forall|q: int| i < q < j ==> owners@[i as int]@ != owners@[q]@,
            decreases owners@.len() - j,
        {
            if pubkey_eq(&owners[i], &owners[j]) {
                return false;
            }
            j = j + 1;
        }
        i = i + 1;
    }
    true
}

/// Initializes a fresh group record.
///
/// The owner list must be non-empty and duplicate-free, and the threshold
/// must be between one and the number of owners; a group that meets these
/// once keeps them forever, since governance re-checks them on every
/// amendment.
pub fn create_multisig(description: String, owners: Vec<Pubkey>, threshold: u64, nonce: u8) -> (r:
    Result<Multisig, ErrorCode>)
    ensures
        r is Ok <==> owner_set_ok(owners@) && 1 <= threshold <= owners@.len(),
        match r {
            Ok(m) => {
                &&& owner_set_ok(owners@)
                &&& 1 <= threshold <= owners@.len()
                &&& m.wf()
                &&& m.description@ == description@
                &&& m.owners@ == owners@
                &&& m.threshold == threshold
                &&& m.nonce == nonce
                &&& m.owner_set_seqno == 0
                &&& m.lamports == 0
            },
            Err(e) => {
                &&& (e == ErrorCode::InvalidOwnerSet <==> !owner_set_ok(owners@))
                &&& (e == ErrorCode::InvalidThreshold <==> owner_set_ok(owners@) && !(1 <= threshold
                    <= owners@.len()))
            },
        },
{
    if !check_owner_set(&owners) {
        return Err(ErrorCode::InvalidOwnerSet);
    }
    if threshold < 1 || threshold > owners.len() as u64 {
        return Err(ErrorCode::InvalidThreshold);
    }
    Ok(
        Multisig {
            description,
            owners,
            threshold,
            nonce,
            owner_set_seqno: 0,
            lamports: 0,
        },
    )
}

/// Builds a proposal for an external operation, approved by its proposer.
///
/// The proposer must be a current owner; the bitmap gets one slot per
/// owner, all clear except the proposer's own, which is set at creation
/// and can never be revoked. The group's current version is snapshotted
/// into the proposal, so that a later owner-set change invalidates it.
pub fn create_transaction(
    multisig: &Multisig,
    multisig_key: &Pubkey,
    pid: Pubkey,
    accs: Vec<TransactionAccount>,
    data: Vec<u8>,
    proposer: &Pubkey,
) -> (r: Result<Transaction, ErrorCode>)
    requires
        multisig.wf(),
    ensures
        r is Ok <==> is_owner(multisig.owners@, *proposer),
        match r {
            Ok(tx) => {
                &&& is_owner(multisig.owners@, *proposer)
                &&& tx.multisig@ == multisig_key@
                &&& tx.program_id == pid
                &&& tx.accounts@ == accs@
                &&& tx.data@ == data@
                &&& tx.did_execute == false
                &&& tx.owner_set_seqno == multisig.owner_set_seqno
                &&& tx.signers@.len() == multisig.owners@.len()
                &&& forall|k: int|
                    0 <= k < multisig.owners@.len() ==> tx.signers@[k] == (multisig.owners@[k]@
                        == proposer@)
                &&& tx.sized_for(*multisig)
            },
            Err(e) => e == ErrorCode::UnknownSigner && !is_owner(multisig.owners@, *proposer),
        },
{
    if find_owner(&multisig.owners, proposer).is_none() {
        return Err(ErrorCode::UnknownSigner);
    }
    let ghost owners = multisig.owners@;
    let mut signers: Vec<bool> = Vec::new();
    let mut k: usize = 0;
    while k < multisig.owners.len()
        invariant
            k <= owners.len(),
            multisig.owners@ == owners,
            signers@.len() == k,
            forall|t: int| 0 <= t < k ==> signers@[t] == (owners[t]@ == proposer@),
        decreases owners.len() - k,
    {
        signers.push(pubkey_eq(&multisig.owners[k], proposer));
        k = k + 1;
    }
    Ok(
        Transaction {
            multisig: *multisig_key,
            program_id: pid,
            accounts: accs,
            data,
            signers,
            did_execute: false,
            owner_set_seqno: multisig.owner_set_seqno,
        },
    )
}

} // verus!
