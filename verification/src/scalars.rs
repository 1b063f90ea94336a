//! Identifier types of the coin model.
//!
//! Every identifier is a fixed-size value, and two identifiers are equal
//! exactly when they hold the same bytes.

use vstd::prelude::*;

verus! {

/// Thirty-two raw bytes, the width shared by every hash-sized identifier.
pub type Bytes32 = [u8; 32];

/// Whether two byte strings hold the same byte at every position.
fn same_bytes(a: &Bytes32, b: &Bytes32) -> (same: bool)
    ensures
        same == (*a == *b),
{
    let mut i: usize = 0;
    while i < 32
        invariant
            i <= 32,
            forall|j: int| 0 <= j < i ==> a[j] == b[j],
        decreases 32 - i,
    {
        if a[i] != b[i] {
            return false;
        }
        i += 1;
    }
    assert(*a =~= *b);
    true
}

/// The account that is entitled to spend a coin, or that sent or receives a message.
#[derive(Clone, Copy, Debug, Eq, Hash)]
pub struct Address(pub Bytes32);

impl PartialEq for Address {
    fn eq(&self, other: &Self) -> (equal: bool) {
        same_bytes(&self.0, &other.0)
    }
}

impl vstd::std_specs::cmp::PartialEqSpecImpl for Address {
    open spec fn obeys_eq_spec() -> bool {
        true
    }

    open spec fn eq_spec(&self, other: &Self) -> bool {
        *self == *other
    }
}

/// The fungible asset in which a coin is denominated.
#[derive(Clone, Copy, Debug, Eq, Hash)]
pub struct AssetId(pub Bytes32);

impl PartialEq for AssetId {
    fn eq(&self, other: &Self) -> (equal: bool) {
        same_bytes(&self.0, &other.0)
    }
}

impl vstd::std_specs::cmp::PartialEqSpecImpl for AssetId {
    open spec fn obeys_eq_spec() -> bool {
        true
    }

    open spec fn eq_spec(&self, other: &Self) -> bool {
        *self == *other
    }
}

/// The token that makes a bridged message unique.
#[derive(Clone, Copy, Debug, Eq, Hash)]
pub struct Nonce(pub Bytes32);

impl PartialEq for Nonce {
    fn eq(&self, other: &Self) -> (equal: bool) {
        same_bytes(&self.0, &other.0)
    }
}

impl vstd::std_specs::cmp::PartialEqSpecImpl for Nonce {
    open spec fn obeys_eq_spec() -> bool {
        true
    }

    open spec fn eq_spec(&self, other: &Self) -> bool {
        *self == *other
    }
}

/// An unspent transaction output: the transaction that created it and the
/// position of the output inside that transaction.
#[derive(Clone, Copy, Debug, Eq, Hash)]
pub struct UtxoId {
    pub tx_id: Bytes32,
    pub output_index: u8,
}

impl PartialEq for UtxoId {
    fn eq(&self, other: &Self) -> (equal: bool) {
        same_bytes(&self.tx_id, &other.tx_id) && self.output_index == other.output_index
    }
}

impl vstd::std_specs::cmp::PartialEqSpecImpl for UtxoId {
    open spec fn obeys_eq_spec() -> bool {
        true
    }

    open spec fn eq_spec(&self, other: &Self) -> bool {
        *self == *other
    }
}

} // verus!
