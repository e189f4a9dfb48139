//! Account identities.

use vstd::prelude::*;

verus! {

/// An account identity: thirty-two raw bytes.
pub type AccountId = [u8; 32];

/// The all-zero identity, which stands for the chain's native coin wherever an
/// asset is named.
pub open spec fn native_asset() -> AccountId {
    vstd::array::spec_array_fill_for_copy_type::<u8, 32>(0u8)
}

/// The all-zero identity.
pub fn zero_address() -> (zero: AccountId)
    ensures
        zero == native_asset(),
{
    [0u8; 32]
}

/// Whether two identities are the same.
pub fn same_account(a: &AccountId, b: &AccountId) -> (same: bool)
    ensures
        same == (*a == *b),
{
    let mut i: usize = 0;
    while i < 32
        invariant
            i <= 32,
            forall|j: int| 0 <= j < i ==> a[j] == b[j],
        decreases 32 - i,
    {
        if a[i] != b[i] {
            return false;
        }
        i = i + 1;
    }
    assert(*a =~= *b);
    true
}

/// Whether an identity is the native-coin sentinel.
pub fn is_native(asset: &AccountId) -> (native: bool)
    ensures
        native == (*asset == native_asset()),
{
    let zero = zero_address();
    same_account(asset, &zero)
}

} // verus!
