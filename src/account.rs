//! Account identifiers: opaque 32-byte keys compared by value.
use vstd::prelude::*;
use crate::table::TableKey;

verus! {

/// An opaque participant identity, compared only for equality.
#[derive(Clone, Copy, Debug, PartialEq, Eq)]
pub struct AccountId {
    pub bytes: [u8; 32],
}

impl TableKey for AccountId {
    /// Whether two identifiers are the same account.
    fn same(&self, other: &AccountId) -> (r: bool) {
        let mut i: usize = 0;
        while i < 32
            invariant
                0 <= i <= 32,
                forall|j: int| 0 <= j < i ==> self.bytes[j] == other.bytes[j],
            decreases 32 - i,
        {
            if self.bytes[i] != other.bytes[i] {
                return false;
            }
            i = i + 1;
        }
        proof {
            assert(self.bytes =~= other.bytes);
        }
        true
    }
}

/// An (owner, spender) pair is compared by both accounts.
impl TableKey for (AccountId, AccountId) {
    fn same(&self, other: &(AccountId, AccountId)) -> (r: bool) {
        self.0.same(&other.0) && self.1.same(&other.1)
    }
}

impl From<[u8; 32]> for AccountId {
    fn from(bytes: [u8; 32]) -> (r: AccountId) {
        AccountId { bytes }
    }
}

impl vstd::std_specs::convert::FromSpecImpl<[u8; 32]> for AccountId {
    open spec fn obeys_from_spec() -> bool {
        true
    }

    open spec fn from_spec(bytes: [u8; 32]) -> AccountId {
        AccountId { bytes }
    }
}

} // verus!
