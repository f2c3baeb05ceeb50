use vstd::prelude::*;

use crate::key::{distinct_owners, Pubkey};

verus! {

/// A group's configuration record: who may approve, how many approvals
/// execution takes, and a version counter that invalidates in-flight
/// proposals whenever the owner set changes.
pub struct Multisig {
    /// Free-text label; immutable after creation.
    pub description: String,
    /// The identities entitled to propose and approve, in bitmap order.
    pub owners: Vec<Pubkey>,
    /// How many distinct owner approvals execution requires.
    pub threshold: u64,
    /// The bump byte from which the group's authority identity is derived,
    /// together with the group record's own address.
    pub nonce: u8,
    /// Bumped by one every time `owners` changes, and never otherwise.
    pub owner_set_seqno: u32,
    /// Funds held for the group; escrow operations are not implemented.
    pub lamports: u64,
}

impl Multisig {
    /// Well-formedness: at least one owner, no owner listed twice, and a
    /// threshold that at least one and at most all of the owners can meet.
    pub open spec fn wf(self) -> bool {
        &&& 1 <= self.threshold <= self.owners@.len()
        &&& distinct_owners(self.owners@)
    }
}

/// A pending or executed external operation together with its approvals.
pub struct Transaction {
    /// The address of the group record this proposal belongs to.
    pub multisig: Pubkey,
    /// The program the operation targets.
    pub program_id: Pubkey,
    /// The operand records the operation touches.
    pub accounts: Vec<TransactionAccount>,
    /// The operation's opaque payload.
    pub data: Vec<u8>,
    /// `signers[i]` is true iff the owner at position `i` of the group's
    /// owner list, as of `owner_set_seqno`, has approved.
    pub signers: Vec<bool>,
    /// False until execution succeeds; true, permanently, thereafter.
    pub did_execute: bool,
    /// The group's `owner_set_seqno` at creation time.
    pub owner_set_seqno: u32,
}

impl Transaction {
    /// The proposal's bitmap is sized to the group's owner list whenever
    /// the proposal's owner-set snapshot is still the current one. Creation
    /// establishes this and a seqno bump is the only way an owner list
    /// changes, so it holds of every stored proposal.
    pub open spec fn sized_for(self, group: Multisig) -> bool {
        self.owner_set_seqno == group.owner_set_seqno ==> self.signers@.len() == group.owners@.len()
    }
}

/// One operand of a proposed operation: the record it touches and how.
#[derive(Clone, Copy)]
pub struct TransactionAccount {
    pub pubkey: Pubkey,
    pub is_signer: bool,
    pub is_writable: bool,
}

/// A fully-resolved invocation, ready to hand to the host's
/// operation-execution collaborator.
pub struct Instruction {
    pub program_id: Pubkey,
    pub accounts: Vec<TransactionAccount>,
    pub data: Vec<u8>,
}

/// How many approvals a bitmap records.
pub open spec fn count_true(s: Seq<bool>) -> nat
    decreases s.len(),
{
    if s.len() == 0 {
        0
    } else {
        count_true(s.drop_last()) + if s.last() {
            1nat
        } else {
            0nat
        }
    }
}

/// A bitmap never records more approvals than it has slots.
pub proof fn lemma_count_true_le_len(s: Seq<bool>)
    ensures
        count_true(s) <= s.len(),
    decreases s.len(),
{
    if s.len() > 0 {
        lemma_count_true_le_len(s.drop_last());
    }
}

/// A proposal's approval count never exceeds the size of the owner set
/// it was created under: the bitmap has one slot per owner of that
/// snapshot, and each slot counts at most once.
pub proof fn lemma_approval_count_bounded(tx: Transaction, group: Multisig)
    requires
        tx.signers@.len() == group.owners@.len(),
    ensures
        count_true(tx.signers@) <= group.owners@.len(),
{
    lemma_count_true_le_len(tx.signers@);
}

/// Extending a bitmap by one slot adds that slot's contribution.
proof fn lemma_count_true_take_step(s: Seq<bool>, i: int)
    requires
        0 <= i < s.len(),
    ensures
        count_true(s.take(i + 1)) == count_true(s.take(i)) + if s[i] {
            1nat
        } else {
            0nat
        },
{
    assert(s.take(i + 1).drop_last() =~= s.take(i));
    assert(s.take(i + 1).last() == s[i]);
}

/// Counts the approvals recorded in a bitmap.
pub fn count_approvals(signers: &Vec<bool>) -> (n: u64)
    ensures
        n == count_true(signers@),
        n <= signers@.len(),
{
    let mut n: u64 = 0;
    let mut i: usize = 0;
    while i < signers.len()
        invariant
            i <= signers@.len(),
            n <= i,
            n == count_true(signers@.take(i as int)),
        decreases signers@.len() - i,
    {
        proof {
            lemma_count_true_take_step(signers@, i as int);
        }
        if signers[i] {
            n = n + 1;
        }
        i = i + 1;
    }
    proof {
        assert(signers@.take(signers@.len() as int) =~= signers@);
    }
    n
}

} // verus!
