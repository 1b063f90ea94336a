//! The shape in which a node answers a query for coins.
//!
//! A response has been decoded into these types before it reaches the
//! client's own model. Every scalar is a wrapper of its own around the
//! decoded value, and converts into that value without loss.

use vstd::prelude::*;

use crate::scalars;

verus! {

/// A 64-bit number of a response.
#[derive(Clone, Copy, Debug, PartialEq, Eq)]
pub struct U64(pub u64);

/// A 32-bit number of a response.
#[derive(Clone, Copy, Debug, PartialEq, Eq)]
pub struct U32(pub u32);

/// An account address of a response.
#[derive(Clone, Copy, Debug, PartialEq, Eq)]
pub struct Address(pub scalars::Address);

/// An asset identifier of a response.
#[derive(Clone, Copy, Debug, PartialEq, Eq)]
pub struct AssetId(pub scalars::AssetId);

/// A message nonce of a response.
#[derive(Clone, Copy, Debug, PartialEq, Eq)]
pub struct Nonce(pub scalars::Nonce);

/// An output identifier of a response.
#[derive(Clone, Copy, Debug, PartialEq, Eq)]
pub struct UtxoId(pub scalars::UtxoId);

impl From<U64> for u64 {
    fn from(value: U64) -> (number: u64)
        ensures
            number == value.0,
    {
        value.0
    }
}

impl vstd::std_specs::convert::FromSpecImpl<U64> for u64 {
    open spec fn obeys_from_spec() -> bool {
        true
    }

    open spec fn from_spec(value: U64) -> u64 {
        value.0
    }
}

impl From<U32> for u32 {
    fn from(value: U32) -> (number: u32)
        ensures
            number == value.0,
    {
        value.0
    }
}

impl vstd::std_specs::convert::FromSpecImpl<U32> for u32 {
    open spec fn obeys_from_spec() -> bool {
        true
    }

    open spec fn from_spec(value: U32) -> u32 {
        value.0
    }
}

impl From<Address> for scalars::Address {
    fn from(value: Address) -> (address: scalars::Address)
        ensures
            address == value.0,
    {
        value.0
    }
}

impl vstd::std_specs::convert::FromSpecImpl<Address> for scalars::Address {
    open spec fn obeys_from_spec() -> bool {
        true
    }

    open spec fn from_spec(value: Address) -> scalars::Address {
        value.0
    }
}

impl From<AssetId> for scalars::AssetId {
    fn from(value: AssetId) -> (asset_id: scalars::AssetId)
        ensures
            asset_id == value.0,
    {
        value.0
    }
}

impl vstd::std_specs::convert::FromSpecImpl<AssetId> for scalars::AssetId {
    open spec fn obeys_from_spec() -> bool {
        true
    }

    open spec fn from_spec(value: AssetId) -> scalars::AssetId {
        value.0
    }
}

impl From<Nonce> for scalars::Nonce {
    fn from(value: Nonce) -> (nonce: scalars::Nonce)
        ensures
            nonce == value.0,
    {
        value.0
    }
}

impl vstd::std_specs::convert::FromSpecImpl<Nonce> for scalars::Nonce {
    open spec fn obeys_from_spec() -> bool {
        true
    }

    open spec fn from_spec(value: Nonce) -> scalars::Nonce {
        value.0
    }
}

impl From<UtxoId> for scalars::UtxoId {
    fn from(value: UtxoId) -> (utxo_id: scalars::UtxoId)
        ensures
            utxo_id == value.0,
    {
        value.0
    }
}

impl vstd::std_specs::convert::FromSpecImpl<UtxoId> for scalars::UtxoId {
    open spec fn obeys_from_spec() -> bool {
        true
    }

    open spec fn from_spec(value: UtxoId) -> scalars::UtxoId {
        value.0
    }
}

/// A coin as a response carries it.
#[derive(Clone, Debug, PartialEq, Eq)]
pub struct Coin {
    pub amount: U64,
    pub block_created: U32,
    pub asset_id: AssetId,
    pub utxo_id: UtxoId,
    pub maturity: U32,
    pub owner: Address,
}

/// A message coin as a response carries it.
#[derive(Clone, Debug, PartialEq, Eq)]
pub struct MessageCoin {
    pub amount: U64,
    pub sender: Address,
    pub recipient: Address,
    pub nonce: Nonce,
    pub da_height: U64,
}

/// The union of the coins a response may carry. `Unknown` stands for every
/// variant that the node knows and this client does not.
#[derive(Clone, Debug, PartialEq, Eq)]
pub enum CoinType {
    Coin(Coin),
    MessageCoin(MessageCoin),
    Unknown,
}

/// Where a page stands in the whole result set.
#[derive(Clone, Debug, PartialEq, Eq)]
pub struct PageInfo {
    pub end_cursor: Option<String>,
    pub has_next_page: bool,
    pub has_previous_page: bool,
}

/// One entry of a page of coins.
#[derive(Clone, Debug, PartialEq, Eq)]
pub struct CoinEdge {
    pub node: Coin,
}

/// One page of coins, as the node answers it.
#[derive(Clone, Debug, PartialEq, Eq)]
pub struct CoinConnection {
    pub edges: Vec<CoinEdge>,
    pub page_info: PageInfo,
}

} // verus!
