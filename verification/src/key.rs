//! Opaque fixed-length identities of ledger parties and records.

use vstd::prelude::*;

verus! {

/// Number of bytes in an identity.
pub const KEY_LEN: usize = 32;

/// An opaque identity: a seller, a bidder, a custody account, an auction record.
///
/// Two keys are the same identity exactly when all their bytes agree.
#[derive(Clone, Copy, Debug, Eq, Hash)]
pub struct AccountKey {
    pub bytes: [u8; 32],
}

impl View for AccountKey {
    type V = Seq<u8>;

    open spec fn view(&self) -> Seq<u8> {
        self.bytes@
    }
}

impl AccountKey {
    /// The key whose bytes are all zero, which stands for "nobody".
    pub open spec fn null() -> AccountKey {
        AccountKey { bytes: vstd::array::spec_array_fill_for_copy_type::<u8, 32>(0u8) }
    }

    /// Wraps the given bytes as an identity.
    pub fn new(bytes: [u8; 32]) -> (r: AccountKey)
        ensures
            r.bytes == bytes,
            r@ == bytes@,
    {
        AccountKey { bytes }
    }

    /// The bytes of this identity.
    pub fn to_bytes(&self) -> (r: [u8; 32])
        ensures
            r == self.bytes,
            r@ == self@,
    {
        self.bytes
    }
}

/// Keys with the same bytes are the same key.
pub proof fn lemma_key_ext(a: AccountKey, b: AccountKey)
    requires
        a@ == b@,
    ensures
        a == b,
{
    assert(a.bytes =~= b.bytes);
}

impl PartialEq for AccountKey {
    fn eq(&self, other: &AccountKey) -> (r: bool) {
        let mut i: usize = 0;
        while i < KEY_LEN
            invariant
                i <= KEY_LEN,
                forall|j: int| 0 <= j < i ==> self.bytes[j] == other.bytes[j],
            decreases KEY_LEN - i,
        {
            if self.bytes[i] != other.bytes[i] {
                return false;
            }
            i += 1;
        }
        proof {
            assert(self.bytes =~= other.bytes);
        }
        true
    }
}

impl vstd::std_specs::cmp::PartialEqSpecImpl for AccountKey {
    open spec fn obeys_eq_spec() -> bool {
        true
    }

    open spec fn eq_spec(&self, other: &AccountKey) -> bool {
        *self == *other
    }
}

impl Default for AccountKey {
    fn default() -> (r: AccountKey)
        ensures
            r == AccountKey::null(),
            forall|i: int| 0 <= i < 32 ==> r@[i] == 0u8,
    {
        AccountKey { bytes: [0u8; 32] }
    }
}

} // verus!
