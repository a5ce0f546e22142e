//! The escrow as a mathematical value: four books keyed by text, and the
//! order in which a query lists their entries.

use crate::state::{BidView, CoinDepositView, ItemDepositView, OfferView};
use vstd::prelude::*;

verus! {

/// Key of a coin custody record: owner, then token contract.
pub type CoinKey = (Seq<char>, Seq<char>);

/// Key of an item custody record: collection, then owner, then item.
pub type ItemKey = (Seq<char>, Seq<char>, Seq<char>);

/// Key of a listing and of a bid: collection, then item.
pub type BookKey = (Seq<char>, Seq<char>);

/// Everything the escrow knows.
///
/// `slots` holds the keys under which an item is in custody; `items` holds
/// what is recorded under them. `items.dom()` is within `slots`.
pub struct LedgerView {
    pub coins: Map<CoinKey, CoinDepositView>,
    pub items: Map<ItemKey, ItemDepositView>,
    pub slots: Set<ItemKey>,
    pub asks: Map<BookKey, OfferView>,
    pub bids: Map<BookKey, BidView>,
}

/// The escrow before anything was deposited.
pub open spec fn empty_ledger() -> LedgerView {
    LedgerView {
        coins: Map::empty(),
        items: Map::empty(),
        slots: Set::empty(),
        asks: Map::empty(),
        bids: Map::empty(),
    }
}

/// A key part that the store prefixes with its length must encode to at most
/// 65535 bytes.
pub open spec fn key_fits(part: Seq<char>) -> bool {
    vstd::utf8::encode_utf8(part).len() <= 0xFFFF
}

/// Every key of the books has parts that the store can prefix with their
/// length, and so has every owner that a listing names. Books without
/// entries are so, and every transition keeps them so.
pub open spec fn keys_fit(ledger: LedgerView) -> bool {
    &&& forall|o: Seq<char>, t: Seq<char>| #[trigger]
        ledger.coins.contains_key((o, t)) ==> key_fits(o)
    &&& forall|c: Seq<char>, o: Seq<char>, i: Seq<char>| #[trigger]
        ledger.items.contains_key((c, o, i)) ==> key_fits(c) && key_fits(o)
    &&& forall|c: Seq<char>, o: Seq<char>, i: Seq<char>| #[trigger]
        ledger.slots.contains((c, o, i)) ==> key_fits(c) && key_fits(o)
    &&& forall|c: Seq<char>, i: Seq<char>| #[trigger]
        ledger.asks.contains_key((c, i)) ==> key_fits(c) && key_fits(ledger.asks[(c, i)].owner)
    &&& forall|c: Seq<char>, i: Seq<char>| #[trigger]
        ledger.bids.contains_key((c, i)) ==> key_fits(c)
}

/// Text order: character by character, a proper prefix first.
pub open spec fn text_lt(a: Seq<char>, b: Seq<char>) -> bool
    decreases a.len(),
{
    if b.len() == 0 {
        false
    } else if a.len() == 0 {
        true
    } else if a[0] != b[0] {
        (a[0] as u32) < (b[0] as u32)
    } else {
        text_lt(a.drop_first(), b.drop_first())
    }
}

/// The keys of a list of rows, in the order of the rows.
pub open spec fn row_keys<V>(rows: Seq<(Seq<char>, V)>) -> Seq<Seq<char>> {
    rows.map_values(|r: (Seq<char>, V)| r.0)
}

/// `rows` lists `entries` completely, without repetition, by ascending key.
pub open spec fn is_listing<V>(rows: Seq<(Seq<char>, V)>, entries: Map<Seq<char>, V>) -> bool {
    &&& forall|i: int, j: int|
        0 <= i < j < rows.len() ==> text_lt(#[trigger] rows[i].0, #[trigger] rows[j].0)
    &&& forall|i: int|
        0 <= i < rows.len() ==> entries.contains_key(#[trigger] rows[i].0) && entries[rows[i].0]
            == rows[i].1
    &&& forall|k: Seq<char>| #[trigger]
        entries.contains_key(k) ==> row_keys(rows).contains(k)
}

/// The coin custody records of one owner, by token contract.
pub open spec fn coins_of_owner(
    coins: Map<CoinKey, CoinDepositView>,
    owner: Seq<char>,
) -> Map<Seq<char>, CoinDepositView> {
    Map::new(|t: Seq<char>| coins.contains_key((owner, t)), |t: Seq<char>| coins[(owner, t)])
}

/// The item custody records of one owner within one collection, by item.
pub open spec fn items_of_owner(
    items: Map<ItemKey, ItemDepositView>,
    collection: Seq<char>,
    owner: Seq<char>,
) -> Map<Seq<char>, ItemDepositView> {
    Map::new(
        |t: Seq<char>| items.contains_key((collection, owner, t)),
        |t: Seq<char>| items[(collection, owner, t)],
    )
}

} // verus!
