//! The store: `cosmwasm_std::MemoryStorage`, read and written through the
//! typed maps of `cw_storage_plus`.
//!
//! Nothing in this file is proved. Each function states what the call in its
//! body does to the four books; the rest of the library is verified against
//! these statements.

use crate::model::{is_listing, key_fits, BookKey, CoinKey, ItemKey, LedgerView};
use crate::state::{
    coin_rows, item_rows, Bid, BidView, CoinDepositView, Cw20Deposits, Cw721Deposits,
    ItemDepositView, Offer, OfferView,
};
use cosmwasm_std::{MemoryStorage, Order, StdError, Uint128};
use vstd::prelude::*;

verus! {

/// The in-memory store of `cosmwasm_std`: an ordered map from bytes to bytes.
#[verifier::external_type_specification]
#[verifier::external_body]
pub struct ExMemoryStorage(MemoryStorage);

/// The coin custody records in the store: the entries of the map
/// `cw20deposits` whose value decodes.
pub uninterp spec fn coin_deposits_of(store: MemoryStorage) -> Map<CoinKey, CoinDepositView>;

/// The item custody records in the store: the entries of the map
/// `cw721deposits` whose value decodes.
pub uninterp spec fn item_deposits_of(store: MemoryStorage) -> Map<ItemKey, ItemDepositView>;

/// The keys of the map `cw721deposits` under which the store holds anything,
/// decodable or not.
pub uninterp spec fn item_slots_of(store: MemoryStorage) -> Set<ItemKey>;

/// The listings in the store: the entries of the map `asks` whose value
/// decodes.
pub uninterp spec fn asks_of(store: MemoryStorage) -> Map<BookKey, OfferView>;

/// The bids in the store: the entries of the map `bids` whose value decodes.
pub uninterp spec fn bids_of(store: MemoryStorage) -> Map<BookKey, BidView>;

/// Every entry that the store holds under one of the four maps has a key made
/// of text and a value that decodes as a record of that map.
pub uninterp spec fn sound(store: MemoryStorage) -> bool;

/// The four books of a store.
pub open spec fn contents(store: MemoryStorage) -> LedgerView {
    LedgerView {
        coins: coin_deposits_of(store),
        items: item_deposits_of(store),
        slots: item_slots_of(store),
        asks: asks_of(store),
        bids: bids_of(store),
    }
}

/// `MemoryStorage::new` makes a store without entries.
pub assume_specification[ MemoryStorage::new ]() -> (store: MemoryStorage)
    ensures
        contents(store) == crate::model::empty_ledger(),
        sound(store),
;

/// `cw2::set_contract_version` writes the contract's name and version under
/// the key `contract_info`, which belongs to none of the four maps. It fails
/// only where the two texts do not serialize, and text always does.
#[verifier::external_body]
pub(crate) fn stamp_version(store: &mut MemoryStorage, name: &str, version: &str) -> (r: Result<
    (),
    StdError,
>)
    ensures
        r is Ok,
        contents(*final(store)) == contents(*old(store)),
        sound(*old(store)) ==> sound(*final(store)),
{
    cw2::set_contract_version(store, name, version)
}

/// `Map::load` on `cw20deposits`: the record under (owner, contract), or an
/// error where none is stored or what is stored does not decode.
#[verifier::external_body]
pub(crate) fn load_coin_deposit(store: &MemoryStorage, owner: &str, contract: &str) -> (r: Result<
    Cw20Deposits,
    StdError,
>)
    requires
        key_fits(owner@),
    ensures
        r is Ok <==> coin_deposits_of(*store).contains_key((owner@, contract@)),
        r is Ok ==> r->Ok_0@ == coin_deposits_of(*store)[(owner@, contract@)],
{
    let map: cw_storage_plus::Map<(&str, &str), (i32, String, String, Uint128)> =
        cw_storage_plus::Map::new("cw20deposits");
    match map.load(store, (owner, contract)) {
        Ok(row) => Ok(Cw20Deposits { count: row.0, owner: row.1, contract: row.2, amount: row.3.u128() }),
        Err(e) => Err(e),
    }
}

/// `Map::save` on `cw20deposits`: the record stands under (owner, contract)
/// and nothing else has changed. The call fails only where the record does
/// not serialize, and a row of a number and texts always does.
#[verifier::external_body]
pub(crate) fn save_coin_deposit(
    store: &mut MemoryStorage,
    owner: &str,
    contract: &str,
    record: &Cw20Deposits,
) -> (r: Result<(), StdError>)
    requires
        key_fits(owner@),
    ensures
        r is Ok,
        contents(*final(store)) == (LedgerView {
            coins: coin_deposits_of(*old(store)).insert((owner@, contract@), record@),
            ..contents(*old(store))
        }),
        sound(*old(store)) ==> sound(*final(store)),
{
    let map: cw_storage_plus::Map<(&str, &str), (i32, String, String, Uint128)> =
        cw_storage_plus::Map::new("cw20deposits");
    let row = (record.count, record.owner.clone(), record.contract.clone(), Uint128::new(record.amount));
    map.save(store, (owner, contract), &row)
}

/// `Map::prefix` and `Prefix::range` on `cw20deposits`, ascending: the
/// records of one owner by token contract. They come in the order of the
/// bytes of the stored keys, which for text is the order of its characters.
/// Fails where an entry of that owner does not decode.
#[verifier::external_body]
pub(crate) fn list_coin_deposits(store: &MemoryStorage, owner: &str) -> (r: Result<
    Vec<(String, Cw20Deposits)>,
    StdError,
>)
    requires
        key_fits(owner@),
    ensures
        sound(*store) ==> r is Ok,
        r is Ok ==> is_listing(
            coin_rows(r->Ok_0@),
            crate::model::coins_of_owner(coin_deposits_of(*store), owner@),
        ),
{
    let map: cw_storage_plus::Map<(&str, &str), (i32, String, String, Uint128)> =
        cw_storage_plus::Map::new("cw20deposits");
    let rows: Result<Vec<(String, (i32, String, String, Uint128))>, StdError> =
        map.prefix(owner).range(store, None, None, Order::Ascending).collect();
    Ok(rows?.into_iter().map(|(k, row)| {
        (k, Cw20Deposits { count: row.0, owner: row.1, contract: row.2, amount: row.3.u128() })
    }).collect())
}

/// `Map::has` on `cw721deposits`: whether the store holds anything under
/// (collection, owner, item).
#[verifier::external_body]
pub(crate) fn has_item_deposit(
    store: &MemoryStorage,
    collection: &str,
    owner: &str,
    token_id: &str,
) -> (r: bool)
    requires
        key_fits(collection@),
        key_fits(owner@),
    ensures
        r == item_slots_of(*store).contains((collection@, owner@, token_id@)),
        item_deposits_of(*store).contains_key((collection@, owner@, token_id@)) ==> r,
        sound(*store) && r ==> item_deposits_of(*store).contains_key(
            (collection@, owner@, token_id@),
        ),
{
    let map: cw_storage_plus::Map<(&str, &str, &str), (String, String, String)> =
        cw_storage_plus::Map::new("cw721deposits");
    map.has(store, (collection, owner, token_id))
}

/// `Map::save` on `cw721deposits`: the record stands under
/// (collection, owner, item) and nothing else has changed. The call fails
/// only where the record does not serialize, and a row of texts always does.
#[verifier::external_body]
pub(crate) fn save_item_deposit(
    store: &mut MemoryStorage,
    collection: &str,
    owner: &str,
    token_id: &str,
    record: &Cw721Deposits,
) -> (r: Result<(), StdError>)
    requires
        key_fits(collection@),
        key_fits(owner@),
    ensures
        r is Ok,
        contents(*final(store)) == (LedgerView {
            items: item_deposits_of(*old(store)).insert(
                (collection@, owner@, token_id@),
                record@,
            ),
            slots: item_slots_of(*old(store)).insert((collection@, owner@, token_id@)),
            ..contents(*old(store))
        }),
        sound(*old(store)) ==> sound(*final(store)),
{
    let map: cw_storage_plus::Map<(&str, &str, &str), (String, String, String)> =
        cw_storage_plus::Map::new("cw721deposits");
    let row = (record.owner.clone(), record.contract.clone(), record.token_id.clone());
    map.save(store, (collection, owner, token_id), &row)
}

/// `Map::remove` on `cw721deposits`: nothing stands under
/// (collection, owner, item) any more and nothing else has changed.
#[verifier::external_body]
pub(crate) fn remove_item_deposit(
    store: &mut MemoryStorage,
    collection: &str,
    owner: &str,
    token_id: &str,
)
    requires
        key_fits(collection@),
        key_fits(owner@),
    ensures
        contents(*final(store)) == (LedgerView {
            items: item_deposits_of(*old(store)).remove((collection@, owner@, token_id@)),
            slots: item_slots_of(*old(store)).remove((collection@, owner@, token_id@)),
            ..contents(*old(store))
        }),
        sound(*old(store)) ==> sound(*final(store)),
{
    let map: cw_storage_plus::Map<(&str, &str, &str), (String, String, String)> =
        cw_storage_plus::Map::new("cw721deposits");
    map.remove(store, (collection, owner, token_id))
}

/// `Map::prefix` and `Prefix::range` on `cw721deposits`, ascending: the
/// records of one owner within one collection by item. They come in the
/// order of the bytes of the stored keys, which for text is the order of its
/// characters. Fails where an entry of that owner and collection does not
/// decode.
#[verifier::external_body]
pub(crate) fn list_item_deposits(store: &MemoryStorage, collection: &str, owner: &str) -> (r:
    Result<Vec<(String, Cw721Deposits)>, StdError>)
    requires
        key_fits(collection@),
        key_fits(owner@),
    ensures
        sound(*store) ==> r is Ok,
        r is Ok ==> is_listing(
            item_rows(r->Ok_0@),
            crate::model::items_of_owner(item_deposits_of(*store), collection@, owner@),
        ),
{
    let map: cw_storage_plus::Map<(&str, &str, &str), (String, String, String)> =
        cw_storage_plus::Map::new("cw721deposits");
    let rows: Result<Vec<(String, (String, String, String))>, StdError> =
        map.prefix((collection, owner)).range(store, None, None, Order::Ascending).collect();
    Ok(rows?.into_iter().map(|(k, row)| {
        (k, Cw721Deposits { owner: row.0, contract: row.1, token_id: row.2 })
    }).collect())
}

/// `Map::load` on `asks`: the listing under (collection, item), or an error
/// where none is stored or what is stored does not decode.
#[verifier::external_body]
pub(crate) fn load_ask(store: &MemoryStorage, collection: &str, token_id: &str) -> (r: Result<
    Offer,
    StdError,
>)
    requires
        key_fits(collection@),
    ensures
        r is Ok <==> asks_of(*store).contains_key((collection@, token_id@)),
        r is Ok ==> r->Ok_0@ == asks_of(*store)[(collection@, token_id@)],
{
    let map: cw_storage_plus::Map<(&str, &str), (String, String, String, String, Uint128)> =
        cw_storage_plus::Map::new("asks");
    match map.load(store, (collection, token_id)) {
        Ok(row) => Ok(Offer {
            owner: row.0,
            cw721_contract: row.1,
            token_id: row.2,
            cw20_contract: row.3,
            amount: row.4.u128(),
        }),
        Err(e) => Err(e),
    }
}

/// `Map::save` on `asks`: the listing stands under (collection, item) and
/// nothing else has changed. The call fails only where the listing does not
/// serialize, and a row of texts and a number always does.
#[verifier::external_body]
pub(crate) fn save_ask(store: &mut MemoryStorage, collection: &str, token_id: &str, ask: &Offer) -> (r:
    Result<(), StdError>)
    requires
        key_fits(collection@),
    ensures
        r is Ok,
        contents(*final(store)) == (LedgerView {
            asks: asks_of(*old(store)).insert((collection@, token_id@), ask@),
            ..contents(*old(store))
        }),
        sound(*old(store)) ==> sound(*final(store)),
{
    let map: cw_storage_plus::Map<(&str, &str), (String, String, String, String, Uint128)> =
        cw_storage_plus::Map::new("asks");
    let row = (
        ask.owner.clone(),
        ask.cw721_contract.clone(),
        ask.token_id.clone(),
        ask.cw20_contract.clone(),
        Uint128::new(ask.amount),
    );
    map.save(store, (collection, token_id), &row)
}

/// `Map::remove` on `asks`: no listing stands under (collection, item) any
/// more and nothing else has changed.
#[verifier::external_body]
pub(crate) fn remove_ask(store: &mut MemoryStorage, collection: &str, token_id: &str)
    requires
        key_fits(collection@),
    ensures
        contents(*final(store)) == (LedgerView {
            asks: asks_of(*old(store)).remove((collection@, token_id@)),
            ..contents(*old(store))
        }),
        sound(*old(store)) ==> sound(*final(store)),
{
    let map: cw_storage_plus::Map<(&str, &str), (String, String, String, String, Uint128)> =
        cw_storage_plus::Map::new("asks");
    map.remove(store, (collection, token_id))
}

/// `Map::may_load` on `bids`: the bid under (collection, item) where one is
/// stored and decodes, nothing where none is stored, an error where what is
/// stored does not decode.
#[verifier::external_body]
pub(crate) fn may_load_bid(store: &MemoryStorage, collection: &str, token_id: &str) -> (r: Result<
    Option<Bid>,
    StdError,
>)
    requires
        key_fits(collection@),
    ensures
        (r is Ok && r->Ok_0 is Some) <==> bids_of(*store).contains_key((collection@, token_id@)),
        (r is Ok && r->Ok_0 is Some) ==> r->Ok_0->Some_0@ == bids_of(*store)[(
            collection@,
            token_id@,
        )],
        sound(*store) ==> r is Ok,
{
    let map: cw_storage_plus::Map<(&str, &str), (String, String, String, String, Uint128)> =
        cw_storage_plus::Map::new("bids");
    match map.may_load(store, (collection, token_id)) {
        Ok(Some(row)) => Ok(Some(Bid {
            bidder: row.0,
            cw721_contract: row.1,
            token_id: row.2,
            cw20_contract: row.3,
            amount: row.4.u128(),
        })),
        Ok(None) => Ok(None),
        Err(e) => Err(e),
    }
}

/// `Map::save` on `bids`: the bid stands under (collection, item) and
/// nothing else has changed. The call fails only where the bid does not
/// serialize, and a row of texts and a number always does.
#[verifier::external_body]
pub(crate) fn save_bid(store: &mut MemoryStorage, collection: &str, token_id: &str, bid: &Bid) -> (r:
    Result<(), StdError>)
    requires
        key_fits(collection@),
    ensures
        r is Ok,
        contents(*final(store)) == (LedgerView {
            bids: bids_of(*old(store)).insert((collection@, token_id@), bid@),
            ..contents(*old(store))
        }),
        sound(*old(store)) ==> sound(*final(store)),
{
    let map: cw_storage_plus::Map<(&str, &str), (String, String, String, String, Uint128)> =
        cw_storage_plus::Map::new("bids");
    let row = (
        bid.bidder.clone(),
        bid.cw721_contract.clone(),
        bid.token_id.clone(),
        bid.cw20_contract.clone(),
        Uint128::new(bid.amount),
    );
    map.save(store, (collection, token_id), &row)
}

/// `Map::remove` on `bids`: no bid stands under (collection, item) any more
/// and nothing else has changed.
#[verifier::external_body]
pub(crate) fn remove_bid(store: &mut MemoryStorage, collection: &str, token_id: &str)
    requires
        key_fits(collection@),
    ensures
        contents(*final(store)) == (LedgerView {
            bids: bids_of(*old(store)).remove((collection@, token_id@)),
            ..contents(*old(store))
        }),
        sound(*old(store)) ==> sound(*final(store)),
{
    let map: cw_storage_plus::Map<(&str, &str), (String, String, String, String, Uint128)> =
        cw_storage_plus::Map::new("bids");
    map.remove(store, (collection, token_id))
}

} // verus!
