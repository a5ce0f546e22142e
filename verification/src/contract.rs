//! The transitions of the escrow on a store, each verified against the rule
//! that states it.

use crate::error::ContractError;
use crate::model::{key_fits, keys_fit};
use crate::msg::{
    Action, BidsResponse, Cw20DepositResponse, Cw20HookMsg, Cw20ReceiveMsg, Cw721DepositResponse,
    Cw721HookMsg, Cw721ReceiveMsg, ExecuteMsg, InstantiateMsg, Instruction, MessageInfo, QueryMsg,
    QueryResponse, Response,
};
use crate::rules::{
    answered, asking, bid_answer, carried_out, coin_listing_answer,
    credit, debit, deposit_coin_step, deposit_item_step, executed, item_listing_answer,
    place_bid_step, purchase_step, quiet, received_cw20, received_cw721, withdraw_bid_step,
    withdraw_coin_step, withdraw_item_step,
};
use crate::state::{Bid, Cw721Deposits, Offer};
use crate::storage::{
    contents, has_item_deposit, list_coin_deposits, list_item_deposits, load_ask,
    load_coin_deposit, may_load_bid, remove_ask, remove_bid, remove_item_deposit, save_ask,
    save_bid, save_coin_deposit, save_item_deposit, sound, stamp_version,
};
use cosmwasm_std::MemoryStorage;
use vstd::prelude::*;

verus! {

/// Sets the escrow up: the store is stamped with the contract's name and
/// version, and the four books are as they were.
pub fn instantiate(store: &mut MemoryStorage, _info: MessageInfo, _msg: InstantiateMsg) -> (r:
    Result<Response, ContractError>)
    ensures
        r is Ok && r->Ok_0@ == quiet(Action::Instantiate),
        contents(*final(store)) == contents(*old(store)),
        sound(*old(store)) ==> sound(*final(store)),
        keys_fit(contents(*old(store))) ==> keys_fit(contents(*final(store))),
{
    match stamp_version(store, "deposit-cw20-example", "0.1.0") {
        Ok(_) => Ok(quiet_response(Action::Instantiate)),
        Err(e) => Err(ContractError::Std(e)),
    }
}

/// Handles a command of `info.sender` by the transition it names.
pub fn execute(store: &mut MemoryStorage, info: MessageInfo, msg: ExecuteMsg) -> (r: Result<
    Response,
    ContractError,
>)
    ensures
        executed(contents(*old(store)), info.sender@, msg, contents(*final(store)), r),
        sound(*old(store)) ==> sound(*final(store)),
        keys_fit(contents(*old(store))) ==> keys_fit(contents(*final(store))),
{
    match msg {
        ExecuteMsg::Receive(cw20_msg) => receive_cw20(store, info, cw20_msg),
        ExecuteMsg::ReceiveNft(cw721_msg) => receive_cw721(store, info, cw721_msg),
        ExecuteMsg::WithdrawNft { contract, token_id } => execute_cw721_withdraw(
            store,
            info,
            contract,
            token_id,
        ),
        ExecuteMsg::WithdrawBid { contract, token_id } => execute_withdraw_bid(
            store,
            info,
            contract,
            token_id,
        ),
    }
}

/// Answers a question from the store as it stands.
pub fn query(store: &MemoryStorage, msg: QueryMsg) -> (r: Result<QueryResponse, ContractError>)
    ensures
        answered(contents(*store), sound(*store), msg, r),
{
    match msg {
        QueryMsg::Cw20Deposits { address } => match query_cw20_deposits(store, address) {
            Ok(answer) => Ok(QueryResponse::Cw20Deposits(answer)),
            Err(e) => Err(e),
        },
        QueryMsg::Cw721Deposits { address, contract } => match query_cw721_deposits(
            store,
            address,
            contract,
        ) {
            Ok(answer) => Ok(QueryResponse::Cw721Deposits(answer)),
            Err(e) => Err(e),
        },
        QueryMsg::Bids { cw721_contract, token_id } => match query_bids(
            store,
            cw721_contract,
            token_id,
        ) {
            Ok(answer) => Ok(QueryResponse::Bids(answer)),
            Err(e) => Err(e),
        },
    }
}

/// Handles the notice of the token contract `info.sender` that units were
/// transferred to the escrow, as the payload of the notice asks.
pub fn receive_cw20(store: &mut MemoryStorage, info: MessageInfo, cw20_msg: Cw20ReceiveMsg) -> (r:
    Result<Response, ContractError>)
    ensures
        received_cw20(contents(*old(store)), info.sender@, cw20_msg, contents(*final(store)), r),
        sound(*old(store)) ==> sound(*final(store)),
        keys_fit(contents(*old(store))) ==> keys_fit(contents(*final(store))),
{
    let Cw20ReceiveMsg { sender, amount: sent, msg } = cw20_msg;
    match msg {
        Some(Cw20HookMsg::Deposit { owner, amount }) => execute_cw20_deposit(
            store,
            info,
            owner,
            amount,
        ),
        Some(Cw20HookMsg::Purchase { cw721_contract, token_id }) => execute_purchase(
            store,
            info,
            cw721_contract,
            token_id,
            sender,
            sent,
        ),
        Some(Cw20HookMsg::PlaceBid { cw721_contract, token_id }) => execute_place_bid(
            store,
            info,
            cw721_contract,
            token_id,
            sender,
            sent,
        ),
        None => Err(ContractError::InvalidHookMsg),
    }
}

/// Handles the notice of the collection `info.sender` that an item was
/// transferred to the escrow, as the payload of the notice asks.
pub fn receive_cw721(
    store: &mut MemoryStorage,
    info: MessageInfo,
    cw721_msg: Cw721ReceiveMsg,
) -> (r: Result<Response, ContractError>)
    ensures
        received_cw721(
            contents(*old(store)),
            info.sender@,
            cw721_msg,
            contents(*final(store)),
            r,
        ),
        sound(*old(store)) ==> sound(*final(store)),
        keys_fit(contents(*old(store))) ==> keys_fit(contents(*final(store))),
{
    match cw721_msg.msg {
        Some(Cw721HookMsg::Deposit { owner, token_id, cw20_contract, amount }) => {
            execute_cw721_deposit(store, info, owner, token_id, cw20_contract, amount)
        },
        None => Err(ContractError::InvalidHookMsg),
    }
}

/// Whether the store can prefix `part` with its length.
fn fits(part: &str) -> (r: bool)
    ensures
        r == key_fits(part@),
{
    let bytes = part.as_bytes();
    proof {
        vstd::slice::axiom_spec_len(bytes);
    }
    bytes.len() <= 0xFFFF
}

/// The answer of a transition that asks for no transfer.
fn quiet_response(action: Action) -> (r: Response)
    ensures
        r@ == quiet(action),
{
    let r = Response { action, messages: Vec::new() };
    assert(r@.messages =~= Seq::empty());
    r
}

/// The answer of a transition that asks for one transfer.
fn asking_response(action: Action, transfer: Instruction) -> (r: Response)
    ensures
        r@ == asking(action, transfer@),
{
    let mut messages: Vec<Instruction> = Vec::new();
    messages.push(transfer);
    let r = Response { action, messages };
    assert(r@.messages =~= seq![transfer@]);
    r
}

/// Records the bid of `bidder`, who sent `amount` units of the token
/// contract `info.sender`, on item `token_id` of collection `cw721_contract`.
///
/// The bid is refused where it reaches the asking price of a listed item, or
/// does not exceed the standing bid. Otherwise it replaces the standing bid.
/// No transfer is asked for: the units are already in custody, and those of
/// a bid that is replaced stay there.
pub fn execute_place_bid(
    store: &mut MemoryStorage,
    info: MessageInfo,
    cw721_contract: String,
    token_id: String,
    bidder: String,
    amount: u128,
) -> (r: Result<Response, ContractError>)
    ensures
        carried_out(
            place_bid_step(
                contents(*old(store)),
                bidder@,
                cw721_contract@,
                token_id@,
                amount as nat,
                info.sender@,
            ),
            contents(*old(store)),
            contents(*final(store)),
            r,
        ),
        sound(*old(store)) ==> sound(*final(store)),
        keys_fit(contents(*old(store))) ==> keys_fit(contents(*final(store))),
{
    if !fits(cw721_contract.as_str()) {
        return Err(ContractError::KeyTooLong);
    }
    match load_ask(store, cw721_contract.as_str(), token_id.as_str()) {
        Ok(ask) => {
            if amount >= ask.amount {
                return Err(ContractError::BidTooHigh);
            }
        },
        Err(_) => {},
    }
    match may_load_bid(store, cw721_contract.as_str(), token_id.as_str()) {
        Ok(Some(standing)) => {
            if amount <= standing.amount {
                return Err(ContractError::BidTooLow);
            }
        },
        _ => {},
    }
    let bid = Bid {
        bidder,
        cw721_contract: cw721_contract.clone(),
        token_id: token_id.clone(),
        cw20_contract: info.sender,
        amount,
    };
    match save_bid(store, cw721_contract.as_str(), token_id.as_str(), &bid) {
        Ok(_) => Ok(quiet_response(Action::PlaceBid)),
        Err(e) => Err(ContractError::Std(e)),
    }
}

/// Buys item `token_id` of collection `cw721_contract` for `buyer`, who sent
/// `amount` units of the token contract `_info.sender`.
///
/// The amount must equal the asking price. The item leaves custody, the
/// listing ends, and a standing bid on the item is cleared without a refund;
/// the collection is asked to hand the item to `buyer`. The token that was
/// paid is not compared with the one the listing names.
pub fn execute_purchase(
    store: &mut MemoryStorage,
    _info: MessageInfo,
    cw721_contract: String,
    token_id: String,
    buyer: String,
    amount: u128,
) -> (r: Result<Response, ContractError>)
    ensures
        carried_out(
            purchase_step(
                contents(*old(store)),
                buyer@,
                cw721_contract@,
                token_id@,
                amount as nat,
            ),
            contents(*old(store)),
            contents(*final(store)),
            r,
        ),
        sound(*old(store)) ==> sound(*final(store)),
        keys_fit(contents(*old(store))) ==> keys_fit(contents(*final(store))),
{
    if !fits(cw721_contract.as_str()) {
        return Err(ContractError::KeyTooLong);
    }
    let ask = match load_ask(store, cw721_contract.as_str(), token_id.as_str()) {
        Ok(ask) => ask,
        Err(_) => {
            return Err(ContractError::NoSuchAsk);
        },
    };
    if amount != ask.amount {
        return Err(ContractError::InvalidAmount);
    }
    if !fits(ask.owner.as_str()) {
        return Err(ContractError::KeyTooLong);
    }
    remove_item_deposit(store, cw721_contract.as_str(), ask.owner.as_str(), token_id.as_str());
    remove_ask(store, cw721_contract.as_str(), token_id.as_str());
    remove_bid(store, cw721_contract.as_str(), token_id.as_str());
    Ok(
        asking_response(
            Action::Purchase,
            Instruction::TransferItem { contract: cw721_contract, recipient: buyer, token_id },
        ),
    )
}

/// Takes back the bid on item `token_id` of collection `contract`, for the
/// bidder `info.sender` alone. The bid's token contract is asked to return
/// the amount to the bidder.
pub fn execute_withdraw_bid(
    store: &mut MemoryStorage,
    info: MessageInfo,
    contract: String,
    token_id: String,
) -> (r: Result<Response, ContractError>)
    ensures
        carried_out(
            withdraw_bid_step(contents(*old(store)), info.sender@, contract@, token_id@),
            contents(*old(store)),
            contents(*final(store)),
            r,
        ),
        sound(*old(store)) ==> sound(*final(store)),
        keys_fit(contents(*old(store))) ==> keys_fit(contents(*final(store))),
{
    if !fits(contract.as_str()) {
        return Err(ContractError::KeyTooLong);
    }
    let bid = match may_load_bid(store, contract.as_str(), token_id.as_str()) {
        Ok(Some(bid)) => bid,
        _ => {
            return Err(ContractError::NoBidToWithdraw);
        },
    };
    if info.sender != bid.bidder {
        return Err(ContractError::Unauthorized);
    }
    remove_bid(store, contract.as_str(), token_id.as_str());
    Ok(
        asking_response(
            Action::WithdrawBid,
            Instruction::TransferCoin {
                contract: bid.cw20_contract,
                recipient: bid.bidder,
                amount: bid.amount,
            },
        ),
    )
}

/// Takes `amount` units of the token contract `info.sender` into custody
/// for `owner`. No transfer is asked for: the units have arrived already.
pub fn execute_cw20_deposit(
    store: &mut MemoryStorage,
    info: MessageInfo,
    owner: String,
    amount: u128,
) -> (r: Result<Response, ContractError>)
    ensures
        carried_out(
            deposit_coin_step(contents(*old(store)), owner@, info.sender@, amount as nat),
            contents(*old(store)),
            contents(*final(store)),
            r,
        ),
        sound(*old(store)) ==> sound(*final(store)),
        keys_fit(contents(*old(store))) ==> keys_fit(contents(*final(store))),
{
    if !fits(owner.as_str()) {
        return Err(ContractError::KeyTooLong);
    }
    let prev = match load_coin_deposit(store, owner.as_str(), info.sender.as_str()) {
        Ok(deposit) => Some(deposit),
        Err(_) => None,
    };
    let record = match credit(prev, owner.clone(), info.sender.clone(), amount) {
        Ok(record) => record,
        Err(e) => {
            return Err(e);
        },
    };
    match save_coin_deposit(store, owner.as_str(), info.sender.as_str(), &record) {
        Ok(_) => Ok(quiet_response(Action::Cw20Deposit)),
        Err(e) => Err(ContractError::Std(e)),
    }
}

/// Releases `amount` units of token `contract` from the custody of
/// `info.sender`, and asks the token contract to credit them.
pub fn execute_cw20_withdraw(
    store: &mut MemoryStorage,
    info: MessageInfo,
    contract: String,
    amount: u128,
) -> (r: Result<Response, ContractError>)
    ensures
        carried_out(
            withdraw_coin_step(contents(*old(store)), info.sender@, contract@, amount as nat),
            contents(*old(store)),
            contents(*final(store)),
            r,
        ),
        sound(*old(store)) ==> sound(*final(store)),
        keys_fit(contents(*old(store))) ==> keys_fit(contents(*final(store))),
{
    if !fits(info.sender.as_str()) {
        return Err(ContractError::KeyTooLong);
    }
    let prev = match load_coin_deposit(store, info.sender.as_str(), contract.as_str()) {
        Ok(deposit) => Some(deposit),
        Err(_) => None,
    };
    let record = match debit(prev, amount) {
        Ok(record) => record,
        Err(e) => {
            return Err(e);
        },
    };
    match save_coin_deposit(store, info.sender.as_str(), contract.as_str(), &record) {
        Ok(_) => Ok(
            asking_response(
                Action::Cw20Withdraw,
                Instruction::TransferCoin { contract, recipient: info.sender, amount },
            ),
        ),
        Err(e) => Err(ContractError::Std(e)),
    }
}

/// Takes item `token_id` of the collection `info.sender` into custody for
/// `owner` and lists it at `amount` units of token `cw20_contract`. Custody
/// record and listing are written together.
pub fn execute_cw721_deposit(
    store: &mut MemoryStorage,
    info: MessageInfo,
    owner: String,
    token_id: String,
    cw20_contract: String,
    amount: u128,
) -> (r: Result<Response, ContractError>)
    ensures
        carried_out(
            deposit_item_step(
                contents(*old(store)),
                info.sender@,
                owner@,
                token_id@,
                cw20_contract@,
                amount as nat,
            ),
            contents(*old(store)),
            contents(*final(store)),
            r,
        ),
        sound(*old(store)) ==> sound(*final(store)),
        keys_fit(contents(*old(store))) ==> keys_fit(contents(*final(store))),
{
    if !fits(info.sender.as_str()) || !fits(owner.as_str()) {
        return Err(ContractError::KeyTooLong);
    }
    if has_item_deposit(store, info.sender.as_str(), owner.as_str(), token_id.as_str()) {
        return Err(ContractError::AlreadyDeposited);
    }
    let deposit = Cw721Deposits {
        owner: owner.clone(),
        contract: info.sender.clone(),
        token_id: token_id.clone(),
    };
    match save_item_deposit(
        store,
        info.sender.as_str(),
        owner.as_str(),
        token_id.as_str(),
        &deposit,
    ) {
        Ok(_) => {},
        Err(e) => {
            return Err(ContractError::Std(e));
        },
    }
    let ask = Offer {
        owner: owner.clone(),
        cw721_contract: info.sender.clone(),
        token_id: token_id.clone(),
        cw20_contract,
        amount,
    };
    match save_ask(store, info.sender.as_str(), token_id.as_str(), &ask) {
        Ok(_) => Ok(quiet_response(Action::Cw721Deposit)),
        Err(e) => Err(ContractError::Std(e)),
    }
}

/// Returns item `token_id` of collection `contract` to `info.sender`, who
/// deposited it. Custody record and listing end together, and the collection
/// is asked to hand the item back.
pub fn execute_cw721_withdraw(
    store: &mut MemoryStorage,
    info: MessageInfo,
    contract: String,
    token_id: String,
) -> (r: Result<Response, ContractError>)
    ensures
        carried_out(
            withdraw_item_step(contents(*old(store)), contract@, info.sender@, token_id@),
            contents(*old(store)),
            contents(*final(store)),
            r,
        ),
        sound(*old(store)) ==> sound(*final(store)),
        keys_fit(contents(*old(store))) ==> keys_fit(contents(*final(store))),
{
    if !fits(contract.as_str()) || !fits(info.sender.as_str()) {
        return Err(ContractError::KeyTooLong);
    }
    if !has_item_deposit(store, contract.as_str(), info.sender.as_str(), token_id.as_str()) {
        return Err(ContractError::NoSuchDeposit);
    }
    remove_item_deposit(store, contract.as_str(), info.sender.as_str(), token_id.as_str());
    remove_ask(store, contract.as_str(), token_id.as_str());
    Ok(
        asking_response(
            Action::Cw721Withdraw,
            Instruction::TransferItem { contract, recipient: info.sender, token_id },
        ),
    )
}

/// Lists the coin custody records of `address`, by ascending token
/// contract.
pub fn query_cw20_deposits(store: &MemoryStorage, address: String) -> (r: Result<
    Cw20DepositResponse,
    ContractError,
>)
    ensures
        coin_listing_answer(contents(*store), sound(*store), address@, r),
{
    if !fits(address.as_str()) {
        return Err(ContractError::KeyTooLong);
    }
    match list_coin_deposits(store, address.as_str()) {
        Ok(deposits) => Ok(Cw20DepositResponse { deposits }),
        Err(e) => Err(ContractError::Std(e)),
    }
}

/// Lists the item custody records of `address` within collection
/// `contract`, by ascending item.
pub fn query_cw721_deposits(store: &MemoryStorage, address: String, contract: String) -> (r:
    Result<Cw721DepositResponse, ContractError>)
    ensures
        item_listing_answer(contents(*store), sound(*store), address@, contract@, r),
{
    if !fits(contract.as_str()) || !fits(address.as_str()) {
        return Err(ContractError::KeyTooLong);
    }
    match list_item_deposits(store, contract.as_str(), address.as_str()) {
        Ok(deposits) => Ok(Cw721DepositResponse { deposits }),
        Err(e) => Err(ContractError::Std(e)),
    }
}

/// Tells the standing bid on item `token_id` of collection `cw721_contract`,
/// if there is one.
pub fn query_bids(store: &MemoryStorage, cw721_contract: String, token_id: String) -> (r: Result<
    BidsResponse,
    ContractError,
>)
    ensures
        bid_answer(contents(*store), sound(*store), cw721_contract@, token_id@, r),
{
    if !fits(cw721_contract.as_str()) {
        return Err(ContractError::KeyTooLong);
    }
    match may_load_bid(store, cw721_contract.as_str(), token_id.as_str()) {
        Ok(bids) => Ok(BidsResponse { bids }),
        Err(e) => Err(ContractError::Std(e)),
    }
}

} // verus!
