//! The rules of the escrow, stated on mathematical values: what each
//! transition makes of the four books, and when it refuses.

use crate::error::ContractError;
use crate::model::{coins_of_owner, is_listing, items_of_owner, key_fits, LedgerView};
use crate::msg::{
    Action, BidsResponse, Cw20DepositResponse, Cw20HookMsg, Cw20ReceiveMsg, Cw721DepositResponse,
    Cw721HookMsg, Cw721ReceiveMsg, ExecuteMsg, InstructionView, QueryMsg, QueryResponse, Response,
    ResponseView,
};
use crate::state::{
    coin_rows, item_rows, BidView, CoinDepositView, Cw20Deposits, ItemDepositView, OfferView,
};
use vstd::prelude::*;

verus! {

/// What a transition makes of the books and what it answers, or why it
/// refuses.
pub type Step = Result<(LedgerView, ResponseView), ContractError>;

/// The answer of a transition that asks for no transfer.
pub open spec fn quiet(action: Action) -> ResponseView {
    ResponseView { action, messages: Seq::empty() }
}

/// The answer of a transition that asks for one transfer.
pub open spec fn asking(action: Action, transfer: InstructionView) -> ResponseView {
    ResponseView { action, messages: seq![transfer] }
}

/// A top-up fits where neither the balance nor the count leaves its range.
pub open spec fn credit_fits(prev: Option<CoinDepositView>, amount: nat) -> bool {
    match prev {
        Some(d) => d.amount + amount <= u128::MAX && d.count + 1 <= i32::MAX,
        None => true,
    }
}

/// The custody record after a top-up by `amount`: a first deposit opens the
/// record with count 1, a later one adds to the balance and counts up.
pub open spec fn credited(
    prev: Option<CoinDepositView>,
    owner: Seq<char>,
    contract: Seq<char>,
    amount: nat,
) -> CoinDepositView {
    match prev {
        Some(d) => CoinDepositView { count: d.count + 1, amount: d.amount + amount, ..d },
        None => CoinDepositView { count: 1, owner, contract, amount },
    }
}

/// The custody record after `amount` was taken out: the balance is less by
/// `amount` and the count by one.
pub open spec fn debited(prev: CoinDepositView, amount: nat) -> CoinDepositView {
    CoinDepositView { count: prev.count - 1, amount: (prev.amount - amount) as nat, ..prev }
}

/// Depositing `amount` units of token `contract` for `owner`.
pub open spec fn deposit_coin_step(
    pre: LedgerView,
    owner: Seq<char>,
    contract: Seq<char>,
    amount: nat,
) -> Step {
    let key = (owner, contract);
    let prev = if pre.coins.contains_key(key) {
        Some(pre.coins[key])
    } else {
        None
    };
    if !key_fits(owner) {
        Err(ContractError::KeyTooLong)
    } else if !credit_fits(prev, amount) {
        Err(ContractError::ArithmeticOverflow)
    } else {
        Ok(
            (
                LedgerView {
                    coins: pre.coins.insert(key, credited(prev, owner, contract, amount)),
                    ..pre
                },
                quiet(Action::Cw20Deposit),
            ),
        )
    }
}

/// Withdrawing `amount` units of token `contract` to `owner`.
pub open spec fn withdraw_coin_step(
    pre: LedgerView,
    owner: Seq<char>,
    contract: Seq<char>,
    amount: nat,
) -> Step {
    let key = (owner, contract);
    let prev = if pre.coins.contains_key(key) {
        Some(pre.coins[key])
    } else {
        None
    };
    if !key_fits(owner) {
        Err(ContractError::KeyTooLong)
    } else {
        match debit_outcome(prev, amount) {
            Err(e) => Err(e),
            Ok(next) => Ok(
                (
                    LedgerView { coins: pre.coins.insert(key, next), ..pre },
                    asking(
                        Action::Cw20Withdraw,
                        InstructionView::TransferCoin { contract, recipient: owner, amount },
                    ),
                ),
            ),
        }
    }
}

/// Depositing item `token_id` of `collection` for `owner`, listed at `amount`
/// units of token `cw20_contract`.
pub open spec fn deposit_item_step(
    pre: LedgerView,
    collection: Seq<char>,
    owner: Seq<char>,
    token_id: Seq<char>,
    cw20_contract: Seq<char>,
    amount: nat,
) -> Step {
    let key = (collection, owner, token_id);
    if !key_fits(collection) || !key_fits(owner) {
        Err(ContractError::KeyTooLong)
    } else if pre.slots.contains(key) {
        Err(ContractError::AlreadyDeposited)
    } else {
        Ok(
            (
                LedgerView {
                    items: pre.items.insert(
                        key,
                        ItemDepositView { owner, contract: collection, token_id },
                    ),
                    slots: pre.slots.insert(key),
                    asks: pre.asks.insert(
                        (collection, token_id),
                        OfferView {
                            owner,
                            cw721_contract: collection,
                            token_id,
                            cw20_contract,
                            amount,
                        },
                    ),
                    ..pre
                },
                quiet(Action::Cw721Deposit),
            ),
        )
    }
}

/// Returning item `token_id` of `collection` to `owner`, who deposited it.
pub open spec fn withdraw_item_step(
    pre: LedgerView,
    collection: Seq<char>,
    owner: Seq<char>,
    token_id: Seq<char>,
) -> Step {
    let key = (collection, owner, token_id);
    if !key_fits(collection) || !key_fits(owner) {
        Err(ContractError::KeyTooLong)
    } else if !pre.slots.contains(key) {
        Err(ContractError::NoSuchDeposit)
    } else {
        Ok(
            (
                LedgerView {
                    items: pre.items.remove(key),
                    slots: pre.slots.remove(key),
                    asks: pre.asks.remove((collection, token_id)),
                    ..pre
                },
                asking(
                    Action::Cw721Withdraw,
                    InstructionView::TransferItem {
                        contract: collection,
                        recipient: owner,
                        token_id,
                    },
                ),
            ),
        )
    }
}

/// `buyer` paying `paid` for item `token_id` of `collection`. The price must
/// be met exactly. Custody record and listing end, and so does a standing
/// bid on the item, for which no refund is asked.
pub open spec fn purchase_step(
    pre: LedgerView,
    buyer: Seq<char>,
    collection: Seq<char>,
    token_id: Seq<char>,
    paid: nat,
) -> Step {
    let key = (collection, token_id);
    if !key_fits(collection) {
        Err(ContractError::KeyTooLong)
    } else if !pre.asks.contains_key(key) {
        Err(ContractError::NoSuchAsk)
    } else if paid != pre.asks[key].amount {
        Err(ContractError::InvalidAmount)
    } else if !key_fits(pre.asks[key].owner) {
        Err(ContractError::KeyTooLong)
    } else {
        let sold = (collection, pre.asks[key].owner, token_id);
        Ok(
            (
                LedgerView {
                    items: pre.items.remove(sold),
                    slots: pre.slots.remove(sold),
                    asks: pre.asks.remove(key),
                    bids: pre.bids.remove(key),
                    ..pre
                },
                asking(
                    Action::Purchase,
                    InstructionView::TransferItem {
                        contract: collection,
                        recipient: buyer,
                        token_id,
                    },
                ),
            ),
        )
    }
}

/// `bidder` offering `offered` units of token `cw20_contract` for item
/// `token_id` of `collection`. The bid must stay below the asking price and
/// above the standing bid, which it replaces.
pub open spec fn place_bid_step(
    pre: LedgerView,
    bidder: Seq<char>,
    collection: Seq<char>,
    token_id: Seq<char>,
    offered: nat,
    cw20_contract: Seq<char>,
) -> Step {
    let key = (collection, token_id);
    if !key_fits(collection) {
        Err(ContractError::KeyTooLong)
    } else if pre.asks.contains_key(key) && offered >= pre.asks[key].amount {
        Err(ContractError::BidTooHigh)
    } else if pre.bids.contains_key(key) && offered <= pre.bids[key].amount {
        Err(ContractError::BidTooLow)
    } else {
        Ok(
            (
                LedgerView {
                    bids: pre.bids.insert(
                        key,
                        BidView {
                            bidder,
                            cw721_contract: collection,
                            token_id,
                            cw20_contract,
                            amount: offered,
                        },
                    ),
                    ..pre
                },
                quiet(Action::PlaceBid),
            ),
        )
    }
}

/// `requester` taking back the bid on item `token_id` of `collection`.
pub open spec fn withdraw_bid_step(
    pre: LedgerView,
    requester: Seq<char>,
    collection: Seq<char>,
    token_id: Seq<char>,
) -> Step {
    let key = (collection, token_id);
    if !key_fits(collection) {
        Err(ContractError::KeyTooLong)
    } else if !pre.bids.contains_key(key) {
        Err(ContractError::NoBidToWithdraw)
    } else if requester != pre.bids[key].bidder {
        Err(ContractError::Unauthorized)
    } else {
        Ok(
            (
                LedgerView { bids: pre.bids.remove(key), ..pre },
                asking(
                    Action::WithdrawBid,
                    InstructionView::TransferCoin {
                        contract: pre.bids[key].cw20_contract,
                        recipient: pre.bids[key].bidder,
                        amount: pre.bids[key].amount,
                    },
                ),
            ),
        )
    }
}

/// The transition did exactly what `step` says: on refusal the books are as
/// they were.
pub open spec fn carried_out(
    step: Step,
    pre: LedgerView,
    post: LedgerView,
    r: Result<Response, ContractError>,
) -> bool {
    match step {
        Ok((next, answer)) => r is Ok && r->Ok_0@ == answer && post == next,
        Err(e) => r is Err && r->Err_0 == e && post == pre,
    }
}

/// The mathematical value of a custody record that may be absent.
pub open spec fn record_view(prev: Option<Cw20Deposits>) -> Option<CoinDepositView> {
    match prev {
        Some(d) => Some(d@),
        None => None,
    }
}

/// What a withdrawal of `amount` makes of a custody record: it needs a
/// record that holds at least `amount`, and a count that stays at zero or
/// above when it goes down by one.
pub open spec fn debit_outcome(prev: Option<CoinDepositView>, amount: nat) -> Result<
    CoinDepositView,
    ContractError,
> {
    match prev {
        None => Err(ContractError::InsufficientDeposit),
        Some(d) => if amount > d.amount {
            Err(ContractError::InsufficientDeposit)
        } else if d.count - 1 < 0 {
            Err(ContractError::ArithmeticUnderflow)
        } else {
            Ok(debited(d, amount))
        },
    }
}

/// Tops a custody record up by `amount`, or opens one for `owner` and token
/// `contract` where there is none. Refuses where the balance or the count
/// would leave its range.
pub fn credit(prev: Option<Cw20Deposits>, owner: String, contract: String, amount: u128) -> (r:
    Result<Cw20Deposits, ContractError>)
    ensures
        credit_fits(record_view(prev), amount as nat) ==> r is Ok && r->Ok_0@ == credited(
            record_view(prev),
            owner@,
            contract@,
            amount as nat,
        ),
        !credit_fits(record_view(prev), amount as nat) ==> r is Err && r->Err_0
            == ContractError::ArithmeticOverflow,
{
    match prev {
        Some(d) => {
            match (d.amount.checked_add(amount), d.count.checked_add(1)) {
                (Some(total), Some(count)) => Ok(
                    Cw20Deposits { count, owner: d.owner, contract: d.contract, amount: total },
                ),
                _ => Err(ContractError::ArithmeticOverflow),
            }
        },
        None => Ok(Cw20Deposits { count: 1, owner, contract, amount }),
    }
}

/// Takes `amount` out of a custody record and counts the withdrawal.
pub fn debit(prev: Option<Cw20Deposits>, amount: u128) -> (r: Result<Cw20Deposits, ContractError>)
    ensures
        match debit_outcome(record_view(prev), amount as nat) {
            Ok(next) => r is Ok && r->Ok_0@ == next,
            Err(e) => r is Err && r->Err_0 == e,
        },
{
    match prev {
        None => Err(ContractError::InsufficientDeposit),
        Some(d) => {
            if amount > d.amount {
                Err(ContractError::InsufficientDeposit)
            } else if d.count < 1 {
                Err(ContractError::ArithmeticUnderflow)
            } else {
                Ok(
                    Cw20Deposits {
                        count: d.count - 1,
                        owner: d.owner,
                        contract: d.contract,
                        amount: d.amount - amount,
                    },
                )
            }
        },
    }
}

/// A notice from token contract `token` was handled as its payload asks: a
/// deposit, a purchase or a bid. Without a payload it is refused.
pub open spec fn received_cw20(
    pre: LedgerView,
    token: Seq<char>,
    notice: Cw20ReceiveMsg,
    post: LedgerView,
    r: Result<Response, ContractError>,
) -> bool {
    match notice.msg {
        Some(Cw20HookMsg::Deposit { owner, amount }) => carried_out(
            deposit_coin_step(pre, owner@, token, amount as nat),
            pre,
            post,
            r,
        ),
        Some(Cw20HookMsg::Purchase { cw721_contract, token_id }) => carried_out(
            purchase_step(pre, notice.sender@, cw721_contract@, token_id@, notice.amount as nat),
            pre,
            post,
            r,
        ),
        Some(Cw20HookMsg::PlaceBid { cw721_contract, token_id }) => carried_out(
            place_bid_step(
                pre,
                notice.sender@,
                cw721_contract@,
                token_id@,
                notice.amount as nat,
                token,
            ),
            pre,
            post,
            r,
        ),
        None => carried_out(Err(ContractError::InvalidHookMsg), pre, post, r),
    }
}

/// A notice from `collection` was handled as its payload asks: a deposit.
/// Without a payload it is refused.
pub open spec fn received_cw721(
    pre: LedgerView,
    collection: Seq<char>,
    notice: Cw721ReceiveMsg,
    post: LedgerView,
    r: Result<Response, ContractError>,
) -> bool {
    match notice.msg {
        Some(Cw721HookMsg::Deposit { owner, token_id, cw20_contract, amount }) => {
            carried_out(
                deposit_item_step(
                    pre,
                    collection,
                    owner@,
                    token_id@,
                    cw20_contract@,
                    amount as nat,
                ),
                pre,
                post,
                r,
            )
        },
        None => carried_out(Err(ContractError::InvalidHookMsg), pre, post, r),
    }
}

/// A command of `sender` was handled by the transition it names.
pub open spec fn executed(
    pre: LedgerView,
    sender: Seq<char>,
    msg: ExecuteMsg,
    post: LedgerView,
    r: Result<Response, ContractError>,
) -> bool {
    match msg {
        ExecuteMsg::Receive(notice) => received_cw20(pre, sender, notice, post, r),
        ExecuteMsg::ReceiveNft(notice) => received_cw721(pre, sender, notice, post, r),
        ExecuteMsg::WithdrawNft { contract, token_id } => carried_out(
            withdraw_item_step(pre, contract@, sender, token_id@),
            pre,
            post,
            r,
        ),
        ExecuteMsg::WithdrawBid { contract, token_id } => carried_out(
            withdraw_bid_step(pre, sender, contract@, token_id@),
            pre,
            post,
            r,
        ),
    }
}

/// `r` answers the question for the coin custody records of `address`: all
/// of them, by ascending token contract. A store that is sound does answer.
pub open spec fn coin_listing_answer(
    pre: LedgerView,
    is_sound: bool,
    address: Seq<char>,
    r: Result<Cw20DepositResponse, ContractError>,
) -> bool {
    if !key_fits(address) {
        r is Err && r->Err_0 == ContractError::KeyTooLong
    } else {
        match r {
            Ok(answer) => is_listing(
                coin_rows(answer.deposits@),
                coins_of_owner(pre.coins, address),
            ),
            Err(e) => e is Std && !is_sound,
        }
    }
}

/// `r` answers the question for the item custody records of `address`
/// within collection `contract`: all of them, by ascending item. A store
/// that is sound does answer.
pub open spec fn item_listing_answer(
    pre: LedgerView,
    is_sound: bool,
    address: Seq<char>,
    contract: Seq<char>,
    r: Result<Cw721DepositResponse, ContractError>,
) -> bool {
    if !key_fits(contract) || !key_fits(address) {
        r is Err && r->Err_0 == ContractError::KeyTooLong
    } else {
        match r {
            Ok(answer) => is_listing(
                item_rows(answer.deposits@),
                items_of_owner(pre.items, contract, address),
            ),
            Err(e) => e is Std && !is_sound,
        }
    }
}

/// `r` answers the question for the bid on item `token_id` of collection
/// `cw721_contract`: the standing bid, or none. A store that is sound does
/// answer.
pub open spec fn bid_answer(
    pre: LedgerView,
    is_sound: bool,
    cw721_contract: Seq<char>,
    token_id: Seq<char>,
    r: Result<BidsResponse, ContractError>,
) -> bool {
    let key = (cw721_contract, token_id);
    if !key_fits(cw721_contract) {
        r is Err && r->Err_0 == ContractError::KeyTooLong
    } else {
        match r {
            Ok(answer) => match answer.bids {
                Some(bid) => pre.bids.contains_key(key) && pre.bids[key] == bid@,
                None => !pre.bids.contains_key(key),
            },
            Err(e) => e is Std && !is_sound && !pre.bids.contains_key(key),
        }
    }
}

/// `r` answers the question `msg`, in the variant that belongs to it.
pub open spec fn answered(
    pre: LedgerView,
    is_sound: bool,
    msg: QueryMsg,
    r: Result<QueryResponse, ContractError>,
) -> bool {
    match msg {
        QueryMsg::Cw20Deposits { address } => match r {
            Ok(QueryResponse::Cw20Deposits(answer)) => coin_listing_answer(
                pre,
                is_sound,
                address@,
                Ok(answer),
            ),
            Ok(_) => false,
            Err(e) => coin_listing_answer(pre, is_sound, address@, Err(e)),
        },
        QueryMsg::Cw721Deposits { address, contract } => match r {
            Ok(QueryResponse::Cw721Deposits(answer)) => item_listing_answer(
                pre,
                is_sound,
                address@,
                contract@,
                Ok(answer),
            ),
            Ok(_) => false,
            Err(e) => item_listing_answer(pre, is_sound, address@, contract@, Err(e)),
        },
        QueryMsg::Bids { cw721_contract, token_id } => match r {
            Ok(QueryResponse::Bids(answer)) => bid_answer(
                pre,
                is_sound,
                cw721_contract@,
                token_id@,
                Ok(answer),
            ),
            Ok(_) => false,
            Err(e) => bid_answer(pre, is_sound, cw721_contract@, token_id@, Err(e)),
        },
    }
}

} // verus!
