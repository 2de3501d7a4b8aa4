//! Account identifiers.

use vstd::prelude::*;

verus! {

/// Number of bytes in the text form of an account identifier.
pub const ADDRESS_LEN: usize = 56;

/// The identity of an account: the fixed-width text of its key.
///
/// The vault never interprets the bytes. It only asks whether two
/// identifiers are the same one.
#[derive(Clone, Copy, Debug, PartialEq, Eq, Hash)]
pub struct Address {
    pub key: [u8; ADDRESS_LEN],
}

impl Address {
    /// The identifier with the given key text.
    pub fn new(key: [u8; ADDRESS_LEN]) -> (r: Address)
        ensures
            r.key == key,
    {
        Address { key }
    }

    /// Whether `self` and `other` name the same account.
    pub fn same_as(&self, other: &Address) -> (r: bool)
        ensures
            r == (*self == *other),
    {
        let mut i: usize = 0;
        while i < ADDRESS_LEN
            invariant
                i <= ADDRESS_LEN,
                forall|j: int| 0 <= j < i ==> self.key[j] == other.key[j],
            decreases ADDRESS_LEN - i,
        {
            if self.key[i] != other.key[i] {
                return false;
            }
            i += 1;
        }
        assert(self.key =~= other.key);
        true
    }
}

} // verus!
