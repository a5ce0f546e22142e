//! Why a transition or a query was refused.

use cosmwasm_std::StdError;
use vstd::prelude::*;

verus! {

/// The error type of `cosmwasm_std`, carried through unread.
#[verifier::external_type_specification]
#[verifier::external_body]
pub struct ExStdError(StdError);

/// Why the escrow refuses. Every refusal leaves the four books as they were.
#[derive(Debug, PartialEq)]
pub enum ContractError {
    /// The store holds an entry that does not decode.
    Std(StdError),
    /// A key part that the store prefixes with its length is longer than
    /// 65535 bytes.
    KeyTooLong,
    /// The notification carried no payload that selects a command.
    InvalidHookMsg,
    /// The item is already in custody for this owner.
    AlreadyDeposited,
    /// No item is in custody under this key.
    NoSuchDeposit,
    /// The item is not listed.
    NoSuchAsk,
    /// There is no bid on the item.
    NoBidToWithdraw,
    /// The amount paid differs from the asking price.
    InvalidAmount,
    /// The bid reaches the asking price: the item should be purchased.
    BidTooHigh,
    /// The bid does not exceed the standing bid.
    BidTooLow,
    /// The requester is not the bidder.
    Unauthorized,
    /// There is no custody record, or it holds less than was asked for.
    InsufficientDeposit,
    /// A balance or a count would exceed its range.
    ArithmeticOverflow,
    /// A count would fall below zero.
    ArithmeticUnderflow,
}

} // verus!
