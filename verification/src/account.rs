use vstd::prelude::*;

verus! {

/// An account on the chain: the 32 bytes of its public key.
pub type AccountId = [u8; 32];

/// An amount of tokens.
pub type Balance = u128;

/// A 32-byte hash, as used for token partitions.
pub type PartitionHash = [u8; 32];

/// Compares two accounts byte by byte.
pub fn same_account(a: &AccountId, b: &AccountId) -> (same: bool)
    ensures
        same == (*a == *b),
{
    broadcast use vstd::array::group_array_axioms;
    let mut i: usize = 0;
    while i < 32
        invariant
            0 <= i <= 32,
            forall|j: int| 0 <= j < i ==> a[j] == b[j],
        decreases 32 - i,
    {
        if a[i] != b[i] {
            return false;
        }
        i = i + 1;
    }
    assert(*a =~= *b);
    true
}

} // verus!
