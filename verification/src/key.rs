use vstd::prelude::*;

verus! {

/// An opaque 32-byte identity: an owner, a target program, a record
/// address, or a derived authority credential. The engine never looks
/// inside one; it only compares them.
#[derive(Clone, Copy)]
pub struct Pubkey {
    pub bytes: [u8; 32],
}

impl View for Pubkey {
    type V = Seq<u8>;

    open spec fn view(&self) -> Seq<u8> {
        self.bytes@
    }
}

/// Byte-for-byte equality of two identities.
pub fn pubkey_eq(a: &Pubkey, b: &Pubkey) -> (r: bool)
    ensures
        r == (a@ == b@),
{
    let mut i: usize = 0;
    while i < 32
        invariant
            i <= 32,
            forall|k: int| 0 <= k < i ==> a.bytes@[k] == b.bytes@[k],
        decreases 32 - i,
    {
        if a.bytes[i] != b.bytes[i] {
            assert(a@[i as int] != b@[i as int]);
            return false;
        }
        i = i + 1;
    }
    proof {
        assert(a@ =~= b@);
    }
    true
}

/// Whether `who` appears in the owner list.
pub open spec fn is_owner(owners: Seq<Pubkey>, who: Pubkey) -> bool {
    exists|i: int| 0 <= i < owners.len() && owners[i]@ == who@
}

/// The position of `who` in the owner list; meaningful only when
/// `is_owner` holds and the list has no duplicates.
pub open spec fn owner_index(owners: Seq<Pubkey>, who: Pubkey) -> int {
    choose|i: int| 0 <= i < owners.len() && owners[i]@ == who@
}

/// No identity appears twice in the list. Positions in approval bitmaps
/// are only meaningful when this holds.
pub open spec fn distinct_owners(owners: Seq<Pubkey>) -> bool {
    forall|i: int, j: int| 0 <= i < j < owners.len() ==> owners[i]@ != owners[j]@
}

/// In a duplicate-free owner list, `owner_index` is the one position
/// where `who` stands.
pub proof fn lemma_owner_index_unique(owners: Seq<Pubkey>, who: Pubkey, i: int)
    requires
        distinct_owners(owners),
        0 <= i < owners.len(),
        owners[i]@ == who@,
    ensures
        owner_index(owners, who) == i,
{
    assert(is_owner(owners, who));
    let j = owner_index(owners, who);
    assert(0 <= j < owners.len() && owners[j]@ == who@);
    if i < j {
        assert(owners[i]@ != owners[j]@);
    } else if j < i {
        assert(owners[j]@ != owners[i]@);
    }
}

/// The position of the first occurrence of `who` in `owners`, if any.
pub fn find_owner(owners: &Vec<Pubkey>, who: &Pubkey) -> (r: Option<usize>)
    ensures
        match r {
            Some(i) => i < owners@.len() && owners@[i as int]@ == who@,
            None => !is_owner(owners@, *who),
        },
{
    let mut i: usize = 0;
    while i < owners.len()
        invariant
            i <= owners@.len(),
            forall|k: int| 0 <= k < i ==> owners@[k]@ != who@,
        decreases owners@.len() - i,
    {
        if pubkey_eq(&owners[i], who) {
            return Some(i);
        }
        i = i + 1;
    }
    None
}

} // verus!
