//! The four kinds of record the escrow keeps, each with the mathematical
//! value that contracts speak of.

use vstd::prelude::*;

verus! {

/// What a coin custody record says: how many units of `contract` are held
/// for `owner`, and how often the record was topped up less how often it was
/// drawn on. Neither falls below zero.
pub struct CoinDepositView {
    pub count: int,
    pub owner: Seq<char>,
    pub contract: Seq<char>,
    pub amount: nat,
}

/// What an item custody record says.
pub struct ItemDepositView {
    pub owner: Seq<char>,
    pub contract: Seq<char>,
    pub token_id: Seq<char>,
}

/// What a listing says: `owner` sells item `token_id` of collection
/// `cw721_contract` for `amount` units of `cw20_contract`.
pub struct OfferView {
    pub owner: Seq<char>,
    pub cw721_contract: Seq<char>,
    pub token_id: Seq<char>,
    pub cw20_contract: Seq<char>,
    pub amount: nat,
}

/// What a bid says: `bidder` offers `amount` units of `cw20_contract` for
/// item `token_id` of collection `cw721_contract`.
pub struct BidView {
    pub bidder: Seq<char>,
    pub cw721_contract: Seq<char>,
    pub token_id: Seq<char>,
    pub cw20_contract: Seq<char>,
    pub amount: nat,
}

/// Fungible units held in custody for one owner and one token contract.
#[derive(Clone, Debug, PartialEq)]
pub struct Cw20Deposits {
    pub count: i32,
    pub owner: String,
    pub contract: String,
    pub amount: u128,
}

/// A unique item held in custody.
#[derive(Clone, Debug, PartialEq)]
pub struct Cw721Deposits {
    pub owner: String,
    pub contract: String,
    pub token_id: String,
}

/// A standing offer to sell one item at a fixed price.
#[derive(Clone, Debug, PartialEq)]
pub struct Offer {
    pub owner: String,
    pub cw721_contract: String,
    pub token_id: String,
    pub cw20_contract: String,
    pub amount: u128,
}

/// A standing offer to buy one listed item below its asking price.
#[derive(Clone, Debug, PartialEq)]
pub struct Bid {
    pub bidder: String,
    pub cw721_contract: String,
    pub token_id: String,
    pub cw20_contract: String,
    pub amount: u128,
}

impl View for Cw20Deposits {
    type V = CoinDepositView;

    open spec fn view(&self) -> CoinDepositView {
        CoinDepositView {
            count: self.count as int,
            owner: self.owner@,
            contract: self.contract@,
            amount: self.amount as nat,
        }
    }
}

impl View for Cw721Deposits {
    type V = ItemDepositView;

    open spec fn view(&self) -> ItemDepositView {
        ItemDepositView { owner: self.owner@, contract: self.contract@, token_id: self.token_id@ }
    }
}

impl View for Offer {
    type V = OfferView;

    open spec fn view(&self) -> OfferView {
        OfferView {
            owner: self.owner@,
            cw721_contract: self.cw721_contract@,
            token_id: self.token_id@,
            cw20_contract: self.cw20_contract@,
            amount: self.amount as nat,
        }
    }
}

impl View for Bid {
    type V = BidView;

    open spec fn view(&self) -> BidView {
        BidView {
            bidder: self.bidder@,
            cw721_contract: self.cw721_contract@,
            token_id: self.token_id@,
            cw20_contract: self.cw20_contract@,
            amount: self.amount as nat,
        }
    }
}

/// The rows of a coin listing as mathematical values.
pub open spec fn coin_rows(rows: Seq<(String, Cw20Deposits)>) -> Seq<(Seq<char>, CoinDepositView)> {
    rows.map_values(|r: (String, Cw20Deposits)| (r.0@, r.1@))
}

/// The rows of an item listing as mathematical values.
pub open spec fn item_rows(rows: Seq<(String, Cw721Deposits)>) -> Seq<
    (Seq<char>, ItemDepositView),
> {
    rows.map_values(|r: (String, Cw721Deposits)| (r.0@, r.1@))
}

} // verus!
