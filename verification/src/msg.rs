//! What the escrow is asked and what it answers.

use crate::state::{Bid, Cw20Deposits, Cw721Deposits};
use vstd::prelude::*;

verus! {

/// Setting the escrow up takes no parameters.
#[derive(Clone, Debug, PartialEq)]
pub struct InstantiateMsg {}

/// Who sent the message that is being handled.
#[derive(Clone, Debug, PartialEq)]
pub struct MessageInfo {
    pub sender: String,
}

/// The command that rides on a transfer of fungible tokens to the escrow.
#[derive(Clone, Debug, PartialEq)]
pub enum Cw20HookMsg {
    Deposit { owner: String, amount: u128 },
    Purchase { cw721_contract: String, token_id: String },
    PlaceBid { cw721_contract: String, token_id: String },
}

/// The command that rides on a transfer of a unique item to the escrow.
#[derive(Clone, Debug, PartialEq)]
pub enum Cw721HookMsg {
    Deposit { owner: String, token_id: String, cw20_contract: String, amount: u128 },
}

/// A token contract's notice that `sender` transferred `amount` units to the
/// escrow. `msg` is the decoded payload, or nothing where it did not decode.
#[derive(Clone, Debug, PartialEq)]
pub struct Cw20ReceiveMsg {
    pub sender: String,
    pub amount: u128,
    pub msg: Option<Cw20HookMsg>,
}

/// A collection's notice that `sender` transferred item `token_id` to the
/// escrow. `msg` is the decoded payload, or nothing where it did not decode.
#[derive(Clone, Debug, PartialEq)]
pub struct Cw721ReceiveMsg {
    pub sender: String,
    pub token_id: String,
    pub msg: Option<Cw721HookMsg>,
}

/// The commands of the escrow.
#[derive(Clone, Debug, PartialEq)]
pub enum ExecuteMsg {
    Receive(Cw20ReceiveMsg),
    ReceiveNft(Cw721ReceiveMsg),
    WithdrawNft { contract: String, token_id: String },
    WithdrawBid { contract: String, token_id: String },
}

/// The questions the escrow answers.
#[derive(Clone, Debug, PartialEq)]
pub enum QueryMsg {
    Cw20Deposits { address: String },
    Cw721Deposits { address: String, contract: String },
    Bids { cw721_contract: String, token_id: String },
}

/// The coin custody records of one owner, by ascending token contract.
#[derive(Clone, Debug, PartialEq)]
pub struct Cw20DepositResponse {
    pub deposits: Vec<(String, Cw20Deposits)>,
}

/// The item custody records of one owner in one collection, by ascending
/// item.
#[derive(Clone, Debug, PartialEq)]
pub struct Cw721DepositResponse {
    pub deposits: Vec<(String, Cw721Deposits)>,
}

/// The standing bid on an item, if there is one.
#[derive(Clone, Debug, PartialEq)]
pub struct BidsResponse {
    pub bids: Option<Bid>,
}

/// Moving the escrow to a new version takes no parameters.
#[derive(Clone, Debug, PartialEq)]
pub struct MigrateMsg {}

/// The answer to a `QueryMsg`, one variant for each question.
#[derive(Clone, Debug, PartialEq)]
pub enum QueryResponse {
    Cw20Deposits(Cw20DepositResponse),
    Cw721Deposits(Cw721DepositResponse),
    Bids(BidsResponse),
}

/// A transfer that the host is to carry out together with the transition
/// that asked for it.
#[derive(Clone, Debug, PartialEq)]
pub enum Instruction {
    /// Token contract `contract` is to credit `recipient` with `amount`.
    TransferCoin { contract: String, recipient: String, amount: u128 },
    /// Collection `contract` is to hand item `token_id` to `recipient`.
    TransferItem { contract: String, recipient: String, token_id: String },
}

/// An instruction as a mathematical value.
pub enum InstructionView {
    TransferCoin { contract: Seq<char>, recipient: Seq<char>, amount: nat },
    TransferItem { contract: Seq<char>, recipient: Seq<char>, token_id: Seq<char> },
}

impl View for Instruction {
    type V = InstructionView;

    open spec fn view(&self) -> InstructionView {
        match *self {
            Instruction::TransferCoin { contract, recipient, amount } => {
                InstructionView::TransferCoin {
                    contract: contract@,
                    recipient: recipient@,
                    amount: amount as nat,
                }
            },
            Instruction::TransferItem { contract, recipient, token_id } => {
                InstructionView::TransferItem {
                    contract: contract@,
                    recipient: recipient@,
                    token_id: token_id@,
                }
            },
        }
    }
}

/// Which transition was carried out.
#[derive(Clone, Copy, Debug, PartialEq, Eq, Structural)]
pub enum Action {
    Instantiate,
    Cw20Deposit,
    Cw20Withdraw,
    Cw721Deposit,
    Cw721Withdraw,
    Purchase,
    PlaceBid,
    WithdrawBid,
}

/// The result of a transition: what was done, and the transfers that the
/// host is to carry out with it.
#[derive(Clone, Debug, PartialEq)]
pub struct Response {
    pub action: Action,
    pub messages: Vec<Instruction>,
}

/// A response as a mathematical value.
pub struct ResponseView {
    pub action: Action,
    pub messages: Seq<InstructionView>,
}

impl View for Response {
    type V = ResponseView;

    open spec fn view(&self) -> ResponseView {
        ResponseView {
            action: self.action,
            messages: self.messages@.map_values(|m: Instruction| m@),
        }
    }
}

} // verus!
