//! The coin model of the client, and how a node's response becomes that model.

use vstd::prelude::*;

use crate::pagination::{Page, PaginatedResult};
use crate::scalars::{Address, AssetId, Nonce, UtxoId};
use crate::schema;

verus! {

/// A spendable unspent transaction output.
#[derive(Clone, Debug, Eq)]
pub struct Coin {
    pub amount: u64,
    pub block_created: u32,
    pub asset_id: AssetId,
    pub utxo_id: UtxoId,
    pub maturity: u32,
    pub owner: Address,
}

/// Value bridged in by a message rather than backed by an output.
#[derive(Clone, Debug, Eq)]
pub struct MessageCoin {
    pub amount: u64,
    pub sender: Address,
    pub recipient: Address,
    pub nonce: Nonce,
    pub da_height: u64,
}

/// Any coin the client can be told about.
#[derive(Clone, Debug, Eq)]
pub enum CoinType {
    Coin(Coin),
    MessageCoin(MessageCoin),
    /// A kind of coin that this client does not know. It carries no value.
    Unknown,
}

impl CoinType {
    /// The spendable amount: that of the payload, and zero for `Unknown`.
    pub open spec fn spec_amount(&self) -> u64 {
        match self {
            CoinType::Coin(c) => c.amount,
            CoinType::MessageCoin(m) => m.amount,
            CoinType::Unknown => 0,
        }
    }

    /// The spendable amount. An unknown coin is worth nothing, which is no
    /// error: a caller that must tell it from a coin worth zero looks at the
    /// variant.
    #[verifier::when_used_as_spec(spec_amount)]
    pub fn amount(&self) -> (amount: u64)
        ensures
            amount == self.spec_amount(),
    {
        match self {
            CoinType::Coin(c) => c.amount,
            CoinType::MessageCoin(m) => m.amount,
            CoinType::Unknown => 0,
        }
    }
}

impl PartialEq for Coin {
    /// Two coins are equal exactly when all their fields are.
    fn eq(&self, other: &Self) -> (equal: bool) {
        self.amount == other.amount && self.block_created == other.block_created
            && self.asset_id == other.asset_id && self.utxo_id == other.utxo_id
            && self.maturity == other.maturity && self.owner == other.owner
    }
}

impl vstd::std_specs::cmp::PartialEqSpecImpl for Coin {
    open spec fn obeys_eq_spec() -> bool {
        true
    }

    open spec fn eq_spec(&self, other: &Self) -> bool {
        *self == *other
    }
}

impl PartialEq for MessageCoin {
    /// Two message coins are equal exactly when all their fields are.
    fn eq(&self, other: &Self) -> (equal: bool) {
        self.amount == other.amount && self.sender == other.sender
            && self.recipient == other.recipient && self.nonce == other.nonce
            && self.da_height == other.da_height
    }
}

impl vstd::std_specs::cmp::PartialEqSpecImpl for MessageCoin {
    open spec fn obeys_eq_spec() -> bool {
        true
    }

    open spec fn eq_spec(&self, other: &Self) -> bool {
        *self == *other
    }
}

impl PartialEq for CoinType {
    /// Two coins are equal exactly when they are of the same variant and
    /// their payloads are equal.
    fn eq(&self, other: &Self) -> (equal: bool) {
        match (self, other) {
            (CoinType::Coin(a), CoinType::Coin(b)) => a == b,
            (CoinType::MessageCoin(a), CoinType::MessageCoin(b)) => a == b,
            (CoinType::Unknown, CoinType::Unknown) => true,
            _ => false,
        }
    }
}

impl vstd::std_specs::cmp::PartialEqSpecImpl for CoinType {
    open spec fn obeys_eq_spec() -> bool {
        true
    }

    open spec fn eq_spec(&self, other: &Self) -> bool {
        *self == *other
    }
}

impl Coin {
    /// The coin that a response's coin stands for: every field taken over,
    /// each unwrapped from its scalar.
    pub open spec fn spec_from(value: schema::Coin) -> Coin {
        Coin {
            amount: value.amount.0,
            block_created: value.block_created.0,
            asset_id: value.asset_id.0,
            utxo_id: value.utxo_id.0,
            maturity: value.maturity.0,
            owner: value.owner.0,
        }
    }
}

impl From<schema::Coin> for Coin {
    /// Takes every field over, each unwrapped from its scalar.
    fn from(value: schema::Coin) -> (coin: Coin)
        ensures
            coin == Coin::spec_from(value),
            coin.amount == value.amount.0,
            coin.block_created == value.block_created.0,
            coin.asset_id == value.asset_id.0,
            coin.utxo_id == value.utxo_id.0,
            coin.maturity == value.maturity.0,
            coin.owner == value.owner.0,
    {
        Coin {
            amount: value.amount.into(),
            block_created: value.block_created.into(),
            asset_id: value.asset_id.into(),
            utxo_id: value.utxo_id.into(),
            maturity: value.maturity.into(),
            owner: value.owner.into(),
        }
    }
}

impl vstd::std_specs::convert::FromSpecImpl<schema::Coin> for Coin {
    open spec fn obeys_from_spec() -> bool {
        true
    }

    open spec fn from_spec(value: schema::Coin) -> Coin {
        Coin::spec_from(value)
    }
}

impl MessageCoin {
    /// The message coin that a response's message coin stands for: every
    /// field taken over, each unwrapped from its scalar.
    pub open spec fn spec_from(value: schema::MessageCoin) -> MessageCoin {
        MessageCoin {
            amount: value.amount.0,
            sender: value.sender.0,
            recipient: value.recipient.0,
            nonce: value.nonce.0,
            da_height: value.da_height.0,
        }
    }
}

impl From<schema::MessageCoin> for MessageCoin {
    /// Takes every field over, each unwrapped from its scalar.
    fn from(value: schema::MessageCoin) -> (coin: MessageCoin)
        ensures
            coin == MessageCoin::spec_from(value),
            coin.amount == value.amount.0,
            coin.sender == value.sender.0,
            coin.recipient == value.recipient.0,
            coin.nonce == value.nonce.0,
            coin.da_height == value.da_height.0,
    {
        MessageCoin {
            amount: value.amount.into(),
            sender: value.sender.into(),
            recipient: value.recipient.into(),
            nonce: value.nonce.into(),
            da_height: value.da_height.into(),
        }
    }
}

impl vstd::std_specs::convert::FromSpecImpl<schema::MessageCoin> for MessageCoin {
    open spec fn obeys_from_spec() -> bool {
        true
    }

    open spec fn from_spec(value: schema::MessageCoin) -> MessageCoin {
        MessageCoin::spec_from(value)
    }
}

impl CoinType {
    /// The coin that a response's coin stands for: the same variant, with
    /// its payload converted.
    pub open spec fn spec_from(value: schema::CoinType) -> CoinType {
        match value {
            schema::CoinType::Coin(coin) => CoinType::Coin(Coin::spec_from(coin)),
            schema::CoinType::MessageCoin(message_coin) => CoinType::MessageCoin(
                MessageCoin::spec_from(message_coin),
            ),
            schema::CoinType::Unknown => CoinType::Unknown,
        }
    }
}

impl From<schema::CoinType> for CoinType {
    /// Keeps the variant and converts its payload.
    fn from(value: schema::CoinType) -> (coin: CoinType)
        ensures
            coin == CoinType::spec_from(value),
    {
        match value {
            schema::CoinType::Coin(coin) => CoinType::Coin(coin.into()),
            schema::CoinType::MessageCoin(message_coin) => CoinType::MessageCoin(
                message_coin.into(),
            ),
            schema::CoinType::Unknown => CoinType::Unknown,
        }
    }
}

impl vstd::std_specs::convert::FromSpecImpl<schema::CoinType> for CoinType {
    open spec fn obeys_from_spec() -> bool {
        true
    }

    open spec fn from_spec(value: schema::CoinType) -> CoinType {
        CoinType::spec_from(value)
    }
}

/// The coins of a page's entries, one for each entry and in the same order.
pub open spec fn coins_of_edges(edges: Seq<schema::CoinEdge>) -> Seq<Coin> {
    Seq::new(edges.len(), |i: int| Coin::spec_from(edges[i].node))
}

/// The page that a connection stands for.
pub open spec fn coin_page(conn: schema::CoinConnection) -> Page<Coin, String> {
    Page {
        cursor: conn.page_info.end_cursor,
        has_next_page: conn.page_info.has_next_page,
        has_previous_page: conn.page_info.has_previous_page,
        results: coins_of_edges(conn.edges@),
    }
}

impl From<schema::CoinConnection> for PaginatedResult<Coin, String> {
    /// Unwraps the page information and converts the entries one by one.
    fn from(conn: schema::CoinConnection) -> (page: PaginatedResult<Coin, String>)
        ensures
            page@ == coin_page(conn),
            page.cursor == conn.page_info.end_cursor,
            page.has_next_page == conn.page_info.has_next_page,
            page.has_previous_page == conn.page_info.has_previous_page,
            page.results@.len() == conn.edges@.len(),
            forall|i: int|
                #![trigger page.results@[i]]
                0 <= i < conn.edges@.len() ==> page.results@[i] == Coin::spec_from(
                    conn.edges@[i].node,
                ),
    {
        let schema::CoinConnection { edges, page_info } = conn;
        let mut results: Vec<Coin> = Vec::new();
        for edge in it: edges
            invariant
                results@.len() == it.index(),
                forall|j: int|
                    #![trigger results@[j]]
                    0 <= j < it.index() ==> results@[j] == Coin::spec_from(it.seq()[j].node),
        {
            results.push(edge.node.into());
        }
        let page = PaginatedResult {
            cursor: page_info.end_cursor,
            results,
            has_next_page: page_info.has_next_page,
            has_previous_page: page_info.has_previous_page,
        };
        assert(page@ =~= coin_page(conn));
        page
    }
}

impl vstd::std_specs::convert::FromSpecImpl<schema::CoinConnection> for PaginatedResult<Coin, String> {
    /// A vector is more than the sequence it holds, so no spec function can
    /// name the very page that `from` returns: `from` promises the view of
    /// its result instead, which is `coin_page`.
    open spec fn obeys_from_spec() -> bool {
        false
    }

    /// Some page whose view is `coin_page`.
    open spec fn from_spec(conn: schema::CoinConnection) -> PaginatedResult<Coin, String> {
        choose|page: PaginatedResult<Coin, String>| page@ == coin_page(conn)
    }
}

/// The amount of a converted coin is the amount that its payload had in the
/// response, and zero where the response's variant is unknown.
pub proof fn lemma_amount_after_conversion(value: schema::CoinType)
    ensures
        value matches schema::CoinType::Coin(coin) ==> CoinType::spec_from(value).amount()
            == coin.amount.0,
        value matches schema::CoinType::MessageCoin(message_coin) ==> CoinType::spec_from(
            value,
        ).amount() == message_coin.amount.0,
        value is Unknown ==> CoinType::spec_from(value).amount() == 0,
{
}

/// Conversion keeps the variant: a coin stays a coin, a message coin a
/// message coin, and an unknown coin unknown.
pub proof fn lemma_conversion_keeps_variant(value: schema::CoinType)
    ensures
        value is Coin <==> CoinType::spec_from(value) is Coin,
        value is MessageCoin <==> CoinType::spec_from(value) is MessageCoin,
        value is Unknown <==> CoinType::spec_from(value) is Unknown,
{
}

/// Two coins of a response that convert to the same coin are the same.
pub proof fn lemma_coin_conversion_injective(a: schema::Coin, b: schema::Coin)
    requires
        Coin::spec_from(a) == Coin::spec_from(b),
    ensures
        a == b,
{
}

/// Two message coins of a response that convert to the same message coin
/// are the same.
pub proof fn lemma_message_coin_conversion_injective(
    a: schema::MessageCoin,
    b: schema::MessageCoin,
)
    requires
        MessageCoin::spec_from(a) == MessageCoin::spec_from(b),
    ensures
        a == b,
{
}

/// Two coins of either kind that convert to the same coin are the same.
pub proof fn lemma_coin_type_conversion_injective(a: schema::CoinType, b: schema::CoinType)
    requires
        CoinType::spec_from(a) == CoinType::spec_from(b),
    ensures
        a == b,
{
    match (a, b) {
        (schema::CoinType::Coin(x), schema::CoinType::Coin(y)) => {
            lemma_coin_conversion_injective(x, y);
        },
        (schema::CoinType::MessageCoin(x), schema::CoinType::MessageCoin(y)) => {
            lemma_message_coin_conversion_injective(x, y);
        },
        _ => {},
    }
}

/// A page has one result for each entry of the connection, and the result at
/// each position is the coin of the entry at that position.
pub proof fn lemma_page_keeps_order(conn: schema::CoinConnection)
    ensures
        coin_page(conn).results.len() == conn.edges@.len(),
        forall|i: int|
            #![trigger coin_page(conn).results[i]]
            0 <= i < conn.edges@.len() ==> coin_page(conn).results[i] == Coin::spec_from(
                conn.edges@[i].node,
            ),
{
}

/// Two connections that stand for the same page have the same page
/// information and the same entries in the same order.
pub proof fn lemma_page_conversion_injective(
    a: schema::CoinConnection,
    b: schema::CoinConnection,
)
    requires
        coin_page(a) == coin_page(b),
    ensures
        a.page_info == b.page_info,
        a.edges@ == b.edges@,
{
    assert(a.edges@.len() == coin_page(a).results.len());
    assert(b.edges@.len() == coin_page(b).results.len());
    assert forall|i: int| 0 <= i < a.edges@.len() implies a.edges@[i] == b.edges@[i] by {
        assert(coin_page(a).results[i] == Coin::spec_from(a.edges@[i].node));
        assert(coin_page(b).results[i] == Coin::spec_from(b.edges@[i].node));
        lemma_coin_conversion_injective(a.edges@[i].node, b.edges@[i].node);
    }
    assert(a.edges@ =~= b.edges@);
}

} // verus!
