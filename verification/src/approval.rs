use vstd::prelude::*;

use crate::error::ErrorCode;
use crate::key::{find_owner, is_owner, lemma_owner_index_unique, owner_index, Pubkey};
use crate::state::{Multisig, Transaction};

verus! {

/// Records `owner`'s approval on a proposal of this group.
///
/// The proposal must belong to the group and have been created under the
/// group's current owner set; the approver must be a current owner. The
/// approval is monotone: the owner's slot is set to true whether or not
/// it already was, and no call of this function ever clears a slot.
pub fn approve(
    multisig: &Multisig,
    multisig_key: &Pubkey,
    transaction: &mut Transaction,
    owner: &Pubkey,
) -> (r: Result<(), ErrorCode>)
    requires
        multisig.wf(),
        old(transaction).multisig@ == multisig_key@,
        old(transaction).sized_for(*multisig),
    ensures
        r is Ok <==> old(transaction).owner_set_seqno == multisig.owner_set_seqno && is_owner(
            multisig.owners@,
            *owner,
        ),
        match r {
            Ok(()) => {
                &&& old(transaction).owner_set_seqno == multisig.owner_set_seqno
                &&& is_owner(multisig.owners@, *owner)
                &&& final(transaction).signers@ == old(transaction).signers@.update(
                    owner_index(multisig.owners@, *owner),
                    true,
                )
                &&& final(transaction).multisig == old(transaction).multisig
                &&& final(transaction).program_id == old(transaction).program_id
                &&& final(transaction).accounts == old(transaction).accounts
                &&& final(transaction).data == old(transaction).data
                &&& final(transaction).did_execute == old(transaction).did_execute
                &&& final(transaction).owner_set_seqno == old(transaction).owner_set_seqno
            },
            Err(e) => {
                &&& *final(transaction) == *old(transaction)
                &&& (e == ErrorCode::StaleConfig <==> old(transaction).owner_set_seqno
                    != multisig.owner_set_seqno)
                &&& (e == ErrorCode::UnknownSigner <==> old(transaction).owner_set_seqno
                    == multisig.owner_set_seqno && !is_owner(multisig.owners@, *owner))
            },
        },
{
    if transaction.owner_set_seqno != multisig.owner_set_seqno {
        return Err(ErrorCode::StaleConfig);
    }
    match find_owner(&multisig.owners, owner) {
        None => Err(ErrorCode::UnknownSigner),
        Some(idx) => {
            proof {
                lemma_owner_index_unique(multisig.owners@, *owner, idx as int);
            }
            transaction.signers[idx] = true;
            Ok(())
        },
    }
}

/// Approving twice with the same owner is idempotent. `approve`'s
/// contract makes each successful call record the owner's slot as true
/// and change nothing else; so if `first` came from `start` by recording
/// `owner`'s approval, and `second` from `first` by recording the same
/// approval again, the second call changed nothing.
pub proof fn approve_twice_idempotent(
    group: Multisig,
    start: Transaction,
    first: Transaction,
    second: Transaction,
    owner: Pubkey,
)
    requires
        group.wf(),
        is_owner(group.owners@, owner),
        start.signers@.len() == group.owners@.len(),
        first.signers@ == start.signers@.update(owner_index(group.owners@, owner), true),
        second.signers@ == first.signers@.update(owner_index(group.owners@, owner), true),
    ensures
        second.signers@ == first.signers@,
{
    let i = owner_index(group.owners@, owner);
    assert(0 <= i < group.owners@.len());
    assert(second.signers@ =~= first.signers@);
}

} // verus!
