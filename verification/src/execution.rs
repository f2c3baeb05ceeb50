use vstd::prelude::*;

use crate::authority::{authority_matches, check_authority};
use crate::error::ErrorCode;
use crate::key::{pubkey_eq, Pubkey};
use crate::state::{count_approvals, count_true, Instruction, Multisig, Transaction, TransactionAccount};

verus! {

/// One operand as execution hands it to the host: unchanged, except that
/// the occurrence of the group's authority identity is marked as a
/// signer for this single invocation.
pub open spec fn marked_operand(acc: TransactionAccount, auth: Seq<u8>) -> TransactionAccount {
    TransactionAccount { is_signer: acc.is_signer || acc.pubkey@ == auth, ..acc }
}

/// Checks a proposal against the group and, when every check passes,
/// resolves it into an invocation for the host to perform.
///
/// The checks run in order: the proposal must not be burnt
/// (`AlreadyExecuted`), must have been created under the current owner
/// set (`StaleConfig`), must carry at least `threshold` approvals
/// (`QuorumNotReached`), and the presented credential must be the
/// group's derived authority (`Unauthorized`). The resolved invocation
/// is the proposal's operation with the authority operand marked as a
/// signer. The proposal itself is not touched here: the host performs
/// the invocation and then burns the proposal with [`mark_executed`]
/// exactly when the invocation succeeded, so a failed invocation leaves
/// it open to a corrected retry.
pub fn execute_transaction(
    multisig: &Multisig,
    multisig_key: &Pubkey,
    program_id: &Pubkey,
    authority: &Pubkey,
    transaction: &Transaction,
) -> (r: Result<Instruction, ErrorCode>)
    requires
        multisig.wf(),
        transaction.multisig@ == multisig_key@,
        transaction.sized_for(*multisig),
    ensures
        r is Ok <==> !transaction.did_execute && transaction.owner_set_seqno
            == multisig.owner_set_seqno && count_true(transaction.signers@) >= multisig.threshold
            && authority_matches(program_id@, multisig_key@, multisig.nonce, authority@),
        match r {
            Ok(ix) => {
                &&& !transaction.did_execute
                &&& transaction.owner_set_seqno == multisig.owner_set_seqno
                &&& count_true(transaction.signers@) >= multisig.threshold
                &&& authority_matches(program_id@, multisig_key@, multisig.nonce, authority@)
                &&& ix.program_id == transaction.program_id
                &&& ix.data@ == transaction.data@
                &&& ix.accounts@.len() == transaction.accounts@.len()
                &&& forall|k: int|
                    0 <= k < transaction.accounts@.len() ==> ix.accounts@[k] == marked_operand(
                        transaction.accounts@[k],
                        authority@,
                    )
            },
            Err(e) => {
                &&& (e == ErrorCode::AlreadyExecuted <==> transaction.did_execute)
                &&& (e == ErrorCode::StaleConfig <==> !transaction.did_execute
                    && transaction.owner_set_seqno != multisig.owner_set_seqno)
                &&& (e == ErrorCode::QuorumNotReached <==> !transaction.did_execute
                    && transaction.owner_set_seqno == multisig.owner_set_seqno && count_true(
                    transaction.signers@,
                ) < multisig.threshold)
                &&& (e == ErrorCode::Unauthorized <==> !transaction.did_execute
                    && transaction.owner_set_seqno == multisig.owner_set_seqno && count_true(
                    transaction.signers@,
                ) >= multisig.threshold && !authority_matches(
                    program_id@,
                    multisig_key@,
                    multisig.nonce,
                    authority@,
                ))
            },
        },
{
    if transaction.did_execute {
        return Err(ErrorCode::AlreadyExecuted);
    }
    if transaction.owner_set_seqno != multisig.owner_set_seqno {
        return Err(ErrorCode::StaleConfig);
    }
    let sig_count = count_approvals(&transaction.signers);
    if sig_count < multisig.threshold {
        return Err(ErrorCode::QuorumNotReached);
    }
    if !check_authority(program_id, multisig_key, multisig.nonce, authority) {
        return Err(ErrorCode::Unauthorized);
    }
    let mut accounts: Vec<TransactionAccount> = Vec::new();
    let mut k: usize = 0;
    while k < transaction.accounts.len()
        invariant
            k <= transaction.accounts@.len(),
            accounts@.len() == k,
            forall|t: int|
                0 <= t < k ==> accounts@[t] == marked_operand(
                    transaction.accounts@[t],
                    authority@,
                ),
        decreases transaction.accounts@.len() - k,
    {
        let acc = transaction.accounts[k];
        let signs = acc.is_signer || pubkey_eq(&acc.pubkey, authority);
        accounts.push(
            TransactionAccount { pubkey: acc.pubkey, is_signer: signs, is_writable: acc.is_writable },
        );
        k = k + 1;
    }
    let mut data: Vec<u8> = Vec::new();
    let mut d: usize = 0;
    while d < transaction.data.len()
        invariant
            d <= transaction.data@.len(),
            data@ == transaction.data@.take(d as int),
        decreases transaction.data@.len() - d,
    {
        data.push(transaction.data[d]);
        d = d + 1;
    }
    proof {
        assert(transaction.data@.take(transaction.data@.len() as int) =~= transaction.data@);
    }
    Ok(Instruction { program_id: transaction.program_id, accounts, data })
}

/// Burns a proposal after the host has performed its invocation: sets
/// the executed flag, permanently, and changes nothing else. The host
/// calls this exactly when the invocation succeeded; on a failed
/// invocation the proposal is left as it was, open to retry.
pub fn mark_executed(transaction: &mut Transaction)
    ensures
        final(transaction).did_execute == true,
        final(transaction).multisig == old(transaction).multisig,
        final(transaction).program_id == old(transaction).program_id,
        final(transaction).accounts == old(transaction).accounts,
        final(transaction).data == old(transaction).data,
        final(transaction).signers == old(transaction).signers,
        final(transaction).owner_set_seqno == old(transaction).owner_set_seqno,
{
    transaction.did_execute = true;
}

} // verus!
