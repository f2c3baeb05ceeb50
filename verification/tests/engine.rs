use multisig::approval::approve;
use multisig::creation::{create_multisig, create_transaction};
use multisig::error::ErrorCode;
use multisig::escrow::{deposit_lamports, withdraw_lamports};
use multisig::execution::{execute_transaction, mark_executed};
use multisig::governance::{change_threshold, set_owners, set_owners_and_change_threshold};
use multisig::key::{pubkey_eq, Pubkey};
use multisig::state::{count_approvals, Multisig, Transaction, TransactionAccount};

fn pk(b: u8) -> Pubkey {
    Pubkey { bytes: [b; 32] }
}

/// The authority identity the host derives for a group record, and the
/// nonce that derivation used.
fn derived(program: &Pubkey, group_key: &Pubkey) -> (Pubkey, u8) {
    let pid = solana_pubkey::Pubkey::new_from_array(program.bytes);
    let seeds: [&[u8]; 1] = [&group_key.bytes];
    let (pda, bump) = solana_pubkey::Pubkey::find_program_address(&seeds, &pid);
    (Pubkey { bytes: pda.to_bytes() }, bump)
}

/// A group under a fixed program and record address, with its authority.
fn setup(owners: Vec<Pubkey>, threshold: u64) -> (Multisig, Pubkey, Pubkey, Pubkey) {
    let program = pk(200);
    let group_key = pk(201);
    let (authority, bump) = derived(&program, &group_key);
    let group = create_multisig(String::from("team"), owners, threshold, bump).unwrap();
    (group, group_key, program, authority)
}

fn operand(key: Pubkey, is_signer: bool, is_writable: bool) -> TransactionAccount {
    TransactionAccount { pubkey: key, is_signer, is_writable }
}

fn propose(group: &Multisig, group_key: &Pubkey, authority: &Pubkey, by: &Pubkey) -> Transaction {
    let accs = vec![operand(*authority, false, true), operand(pk(77), false, false)];
    create_transaction(group, group_key, pk(90), accs, vec![1, 2, 3], by).unwrap()
}

#[test]
fn create_multisig_initializes_fields() {
    let (group, _, _, _) = setup(vec![pk(1), pk(2), pk(3)], 2);
    assert_eq!(group.description, "team");
    assert_eq!(group.owners.len(), 3);
    assert!(pubkey_eq(&group.owners[0], &pk(1)));
    assert_eq!(group.threshold, 2);
    assert_eq!(group.owner_set_seqno, 0);
    assert_eq!(group.lamports, 0);
}

#[test]
fn create_multisig_rejects_empty_owner_list() {
    let r = create_multisig(String::from("x"), vec![], 1, 0);
    assert_eq!(r.err().unwrap(), ErrorCode::InvalidOwnerSet);
}

#[test]
fn create_multisig_rejects_duplicate_owners() {
    let r = create_multisig(String::from("x"), vec![pk(1), pk(2), pk(1)], 2, 0);
    assert_eq!(r.err().unwrap(), ErrorCode::InvalidOwnerSet);
}

#[test]
fn create_multisig_rejects_zero_threshold() {
    let r = create_multisig(String::from("x"), vec![pk(1), pk(2)], 0, 0);
    assert_eq!(r.err().unwrap(), ErrorCode::InvalidThreshold);
}

#[test]
fn create_multisig_rejects_threshold_above_owner_count() {
    let r = create_multisig(String::from("x"), vec![pk(1), pk(2)], 3, 0);
    assert_eq!(r.err().unwrap(), ErrorCode::InvalidThreshold);
}

#[test]
fn create_transaction_auto_approves_its_proposer() {
    let (group, group_key, _, authority) = setup(vec![pk(1), pk(2), pk(3)], 2);
    let tx = propose(&group, &group_key, &authority, &pk(2));
    assert_eq!(tx.signers, vec![false, true, false]);
    assert!(!tx.did_execute);
    assert_eq!(tx.owner_set_seqno, 0);
    assert_eq!(tx.data, vec![1, 2, 3]);
    assert_eq!(tx.accounts.len(), 2);
}

#[test]
fn create_transaction_rejects_a_stranger() {
    let (group, group_key, _, authority) = setup(vec![pk(1), pk(2)], 2);
    let accs = vec![operand(authority, false, true)];
    let r = create_transaction(&group, &group_key, pk(90), accs, vec![], &pk(9));
    assert_eq!(r.err().unwrap(), ErrorCode::UnknownSigner);
}

#[test]
fn approve_sets_exactly_the_owner_slot() {
    let (group, group_key, _, authority) = setup(vec![pk(1), pk(2), pk(3)], 2);
    let mut tx = propose(&group, &group_key, &authority, &pk(1));
    approve(&group, &group_key, &mut tx, &pk(3)).unwrap();
    assert_eq!(tx.signers, vec![true, false, true]);
}

#[test]
fn approve_rejects_a_stranger() {
    let (group, group_key, _, authority) = setup(vec![pk(1), pk(2)], 2);
    let mut tx = propose(&group, &group_key, &authority, &pk(1));
    let r = approve(&group, &group_key, &mut tx, &pk(9));
    assert_eq!(r.err().unwrap(), ErrorCode::UnknownSigner);
    assert_eq!(tx.signers, vec![true, false]);
}

#[test]
fn approve_twice_is_idempotent() {
    let (group, group_key, _, authority) = setup(vec![pk(1), pk(2), pk(3)], 2);
    let mut tx = propose(&group, &group_key, &authority, &pk(1));
    approve(&group, &group_key, &mut tx, &pk(2)).unwrap();
    let after_first = tx.signers.clone();
    approve(&group, &group_key, &mut tx, &pk(2)).unwrap();
    assert_eq!(tx.signers, after_first);
}

#[test]
fn approval_count_never_exceeds_owner_count() {
    let (group, group_key, _, authority) = setup(vec![pk(1), pk(2), pk(3)], 2);
    let mut tx = propose(&group, &group_key, &authority, &pk(1));
    for owner in [pk(1), pk(2), pk(3), pk(2), pk(1)] {
        approve(&group, &group_key, &mut tx, &owner).unwrap();
    }
    assert_eq!(count_approvals(&tx.signers), 3);
    assert_eq!(tx.signers.len(), group.owners.len());
}

#[test]
fn quorum_executes_exactly_once() {
    let (group, group_key, program, authority) = setup(vec![pk(1), pk(2), pk(3)], 2);
    let mut tx = propose(&group, &group_key, &authority, &pk(1));
    approve(&group, &group_key, &mut tx, &pk(2)).unwrap();
    let ix = execute_transaction(&group, &group_key, &program, &authority, &tx).unwrap();
    assert!(pubkey_eq(&ix.program_id, &pk(90)));
    assert_eq!(ix.data, vec![1, 2, 3]);
    // The authority operand is now marked as the one signer; the other
    // operand is untouched.
    assert!(pubkey_eq(&ix.accounts[0].pubkey, &authority));
    assert!(ix.accounts[0].is_signer);
    assert!(ix.accounts[0].is_writable);
    assert!(!ix.accounts[1].is_signer);
    mark_executed(&mut tx);
    assert!(tx.did_execute);
    let again = execute_transaction(&group, &group_key, &program, &authority, &tx);
    assert_eq!(again.err().unwrap(), ErrorCode::AlreadyExecuted);
}

#[test]
fn execute_rejects_below_quorum() {
    let (group, group_key, program, authority) = setup(vec![pk(1), pk(2), pk(3)], 2);
    let tx = propose(&group, &group_key, &authority, &pk(1));
    let r = execute_transaction(&group, &group_key, &program, &authority, &tx);
    assert_eq!(r.err().unwrap(), ErrorCode::QuorumNotReached);
}

#[test]
fn execute_rejects_a_credential_other_than_the_derived_authority() {
    let (group, group_key, program, authority) = setup(vec![pk(1), pk(2)], 1);
    let tx = propose(&group, &group_key, &authority, &pk(1));
    // The group's own address is not its derived authority.
    let r = execute_transaction(&group, &group_key, &program, &group_key, &tx);
    assert_eq!(r.err().unwrap(), ErrorCode::Unauthorized);
}

#[test]
fn owner_change_invalidates_open_proposals() {
    let (mut group, group_key, program, authority) = setup(vec![pk(1), pk(2), pk(3)], 2);
    let mut tx = propose(&group, &group_key, &authority, &pk(1));
    // A separate proposal to widen the owner set reaches quorum and
    // executes; the host routes it into governance.
    let mut amend = propose(&group, &group_key, &authority, &pk(3));
    approve(&group, &group_key, &mut amend, &pk(2)).unwrap();
    execute_transaction(&group, &group_key, &program, &authority, &amend).unwrap();
    set_owners(&mut group, &group_key, &program, &authority, vec![pk(1), pk(2), pk(3), pk(4)])
        .unwrap();
    mark_executed(&mut amend);
    assert_eq!(group.owner_set_seqno, 1);
    // The proposal created under the old owner set is now stale for
    // both approval and execution.
    let r = approve(&group, &group_key, &mut tx, &pk(2));
    assert_eq!(r.err().unwrap(), ErrorCode::StaleConfig);
    let r = execute_transaction(&group, &group_key, &program, &authority, &tx);
    assert_eq!(r.err().unwrap(), ErrorCode::StaleConfig);
}

#[test]
fn shrinking_the_owner_set_clamps_the_threshold() {
    let (mut group, group_key, program, authority) = setup(vec![pk(1), pk(2)], 2);
    // The group proposes to keep only its first owner; both owners
    // approve and the proposal executes under the group's authority.
    let mut tx = propose(&group, &group_key, &authority, &pk(1));
    approve(&group, &group_key, &mut tx, &pk(2)).unwrap();
    execute_transaction(&group, &group_key, &program, &authority, &tx).unwrap();
    // The host routes the governance operation back into the engine.
    set_owners(&mut group, &group_key, &program, &authority, vec![pk(1)]).unwrap();
    mark_executed(&mut tx);
    assert_eq!(group.owners.len(), 1);
    assert!(pubkey_eq(&group.owners[0], &pk(1)));
    assert_eq!(group.threshold, 1);
    assert_eq!(group.owner_set_seqno, 1);
}

#[test]
fn an_overlarge_threshold_is_rejected_even_with_quorum() {
    let (mut group, group_key, program, authority) = setup(vec![pk(1), pk(2), pk(3)], 2);
    let mut tx = propose(&group, &group_key, &authority, &pk(1));
    approve(&group, &group_key, &mut tx, &pk(2)).unwrap();
    execute_transaction(&group, &group_key, &program, &authority, &tx).unwrap();
    let r = change_threshold(&mut group, &group_key, &program, &authority, 5);
    assert_eq!(r.err().unwrap(), ErrorCode::InvalidThreshold);
    assert_eq!(group.threshold, 2);
    assert_eq!(group.owners.len(), 3);
}

#[test]
fn only_owner_changes_bump_the_version() {
    let (mut group, group_key, program, authority) = setup(vec![pk(1), pk(2), pk(3)], 2);
    change_threshold(&mut group, &group_key, &program, &authority, 3).unwrap();
    assert_eq!(group.owner_set_seqno, 0);
    assert_eq!(group.threshold, 3);
    set_owners(&mut group, &group_key, &program, &authority, vec![pk(1), pk(2)]).unwrap();
    assert_eq!(group.owner_set_seqno, 1);
    assert_eq!(group.threshold, 2);
    set_owners(&mut group, &group_key, &program, &authority, vec![pk(4), pk(5), pk(6)]).unwrap();
    assert_eq!(group.owner_set_seqno, 2);
    assert_eq!(group.threshold, 2);
}

#[test]
fn governance_rejects_a_wrong_credential() {
    let (mut group, group_key, program, _) = setup(vec![pk(1), pk(2)], 2);
    let r = set_owners(&mut group, &group_key, &program, &pk(1), vec![pk(1)]);
    assert_eq!(r.err().unwrap(), ErrorCode::Unauthorized);
    let r = change_threshold(&mut group, &group_key, &program, &group_key, 1);
    assert_eq!(r.err().unwrap(), ErrorCode::Unauthorized);
    assert_eq!(group.owners.len(), 2);
    assert_eq!(group.threshold, 2);
    assert_eq!(group.owner_set_seqno, 0);
}

#[test]
fn governance_rejects_a_bad_owner_list() {
    let (mut group, group_key, program, authority) = setup(vec![pk(1), pk(2)], 2);
    let r = set_owners(&mut group, &group_key, &program, &authority, vec![]);
    assert_eq!(r.err().unwrap(), ErrorCode::InvalidOwnerSet);
    let r = set_owners(&mut group, &group_key, &program, &authority, vec![pk(3), pk(3)]);
    assert_eq!(r.err().unwrap(), ErrorCode::InvalidOwnerSet);
    assert_eq!(group.owners.len(), 2);
    assert_eq!(group.owner_set_seqno, 0);
}

#[test]
fn change_threshold_rejects_zero() {
    let (mut group, group_key, program, authority) = setup(vec![pk(1), pk(2)], 2);
    let r = change_threshold(&mut group, &group_key, &program, &authority, 0);
    assert_eq!(r.err().unwrap(), ErrorCode::InvalidThreshold);
    assert_eq!(group.threshold, 2);
}

#[test]
fn combined_amendment_applies_both_or_neither() {
    let (mut group, group_key, program, authority) = setup(vec![pk(1), pk(2)], 1);
    set_owners_and_change_threshold(
        &mut group,
        &group_key,
        &program,
        &authority,
        vec![pk(3), pk(4), pk(5)],
        3,
    )
    .unwrap();
    assert_eq!(group.owners.len(), 3);
    assert_eq!(group.threshold, 3);
    assert_eq!(group.owner_set_seqno, 1);
    // A threshold no new owner set could meet leaves everything untouched.
    let r = set_owners_and_change_threshold(
        &mut group,
        &group_key,
        &program,
        &authority,
        vec![pk(6), pk(7)],
        3,
    );
    assert_eq!(r.err().unwrap(), ErrorCode::InvalidThreshold);
    assert_eq!(group.owners.len(), 3);
    assert!(pubkey_eq(&group.owners[0], &pk(3)));
    assert_eq!(group.threshold, 3);
    assert_eq!(group.owner_set_seqno, 1);
}

#[test]
fn escrow_calls_are_accepted_and_record_nothing() {
    let (group, _, _, _) = setup(vec![pk(1)], 1);
    assert!(deposit_lamports(&group, 5).is_ok());
    assert!(withdraw_lamports(&group).is_ok());
    assert_eq!(group.lamports, 0);
}
