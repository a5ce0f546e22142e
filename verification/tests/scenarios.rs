use cosmwasm_std::{MemoryStorage, Storage};
use deposit_cw20::contract::{
    execute_cw20_deposit, execute_cw20_withdraw, execute_cw721_deposit, execute_cw721_withdraw,
    execute_place_bid, execute_purchase, execute_withdraw_bid, query_bids, query_cw20_deposits,
    query_cw721_deposits,
};
use deposit_cw20::error::ContractError;
use deposit_cw20::msg::{Action, Instruction, MessageInfo};
use deposit_cw20::rules::{credit, debit};
use deposit_cw20::state::{Bid, Cw20Deposits, Cw721Deposits};

const A: &str = "alice";
const B: &str = "bob";
const C: &str = "collection";
const D: &str = "carol";
const T: &str = "token";

fn from(sender: &str) -> MessageInfo {
    MessageInfo { sender: sender.to_string() }
}

fn s(text: &str) -> String {
    text.to_string()
}

fn coin_record(store: &MemoryStorage, owner: &str, token: &str) -> Option<Cw20Deposits> {
    let listed = query_cw20_deposits(store, s(owner)).unwrap();
    listed.deposits.into_iter().find(|(k, _)| k == token).map(|(_, d)| d)
}

fn listed_item(store: &mut MemoryStorage) {
    execute_cw721_deposit(store, from(C), s(A), s("0"), s(T), 500).unwrap();
}

#[test]
fn scenario_first_deposit_opens_the_record() {
    let mut store = MemoryStorage::new();
    let res = execute_cw20_deposit(&mut store, from(T), s(A), 500).unwrap();
    assert!(res.messages.is_empty());
    assert_eq!(
        coin_record(&store, A, T),
        Some(Cw20Deposits { count: 1, owner: s(A), contract: s(T), amount: 500 })
    );
}

#[test]
fn scenario_deposit_item_then_purchase() {
    let mut store = MemoryStorage::new();
    let res = execute_cw721_deposit(&mut store, from(C), s(A), s("0"), s(T), 500).unwrap();
    assert_eq!(res.action, Action::Cw721Deposit);
    assert!(res.messages.is_empty());
    let res = execute_purchase(&mut store, from(T), s(C), s("0"), s(B), 500).unwrap();
    assert_eq!(
        res.messages,
        vec![Instruction::TransferItem { contract: s(C), recipient: s(B), token_id: s("0") }]
    );
    // neither the custody record nor the listing remains
    assert!(query_cw721_deposits(&store, s(A), s(C)).unwrap().deposits.is_empty());
    assert_eq!(
        execute_cw721_withdraw(&mut store, from(A), s(C), s("0")),
        Err(ContractError::NoSuchDeposit)
    );
    assert_eq!(
        execute_purchase(&mut store, from(T), s(C), s("0"), s(B), 500),
        Err(ContractError::NoSuchAsk)
    );
    // without a listing a bid at the old price is in order
    assert!(execute_place_bid(&mut store, from(T), s(C), s("0"), s(B), 500).is_ok());
}

#[test]
fn scenario_bids_between_standing_bid_and_ask() {
    let mut store = MemoryStorage::new();
    listed_item(&mut store);
    let res = execute_place_bid(&mut store, from(T), s(C), s("0"), s(B), 200).unwrap();
    assert_eq!(res.action, Action::PlaceBid);
    assert!(res.messages.is_empty());
    assert_eq!(
        execute_place_bid(&mut store, from(T), s(C), s("0"), s(D), 150),
        Err(ContractError::BidTooLow)
    );
    assert_eq!(
        execute_place_bid(&mut store, from(T), s(C), s("0"), s(D), 500),
        Err(ContractError::BidTooHigh)
    );
    let standing = query_bids(&store, s(C), s("0")).unwrap().bids;
    assert_eq!(
        standing,
        Some(Bid {
            bidder: s(B),
            cw721_contract: s(C),
            token_id: s("0"),
            cw20_contract: s(T),
            amount: 200
        })
    );
}

#[test]
fn scenario_withdraw_bid_once() {
    let mut store = MemoryStorage::new();
    listed_item(&mut store);
    execute_place_bid(&mut store, from(T), s(C), s("0"), s(B), 200).unwrap();
    let res = execute_withdraw_bid(&mut store, from(B), s(C), s("0")).unwrap();
    assert_eq!(res.action, Action::WithdrawBid);
    assert_eq!(
        res.messages,
        vec![Instruction::TransferCoin { contract: s(T), recipient: s(B), amount: 200 }]
    );
    assert_eq!(query_bids(&store, s(C), s("0")).unwrap().bids, None);
    assert_eq!(
        execute_withdraw_bid(&mut store, from(B), s(C), s("0")),
        Err(ContractError::NoBidToWithdraw)
    );
}

#[test]
fn conservation_over_a_run_of_deposits_and_withdrawals() {
    let mut store = MemoryStorage::new();
    execute_cw20_deposit(&mut store, from(T), s(A), 500).unwrap();
    execute_cw20_deposit(&mut store, from(T), s(A), 70).unwrap();
    execute_cw20_withdraw(&mut store, from(A), s(T), 120).unwrap();
    assert_eq!(
        execute_cw20_withdraw(&mut store, from(A), s(T), 451),
        Err(ContractError::InsufficientDeposit)
    );
    execute_cw20_deposit(&mut store, from(T), s(A), 5).unwrap();
    // 500 + 70 - 120 + 5, three deposits and one withdrawal
    assert_eq!(
        coin_record(&store, A, T),
        Some(Cw20Deposits { count: 2, owner: s(A), contract: s(T), amount: 455 })
    );
    // other owners and other tokens have their own records
    execute_cw20_deposit(&mut store, from("other"), s(A), 9).unwrap();
    execute_cw20_deposit(&mut store, from(T), s(B), 11).unwrap();
    assert_eq!(coin_record(&store, A, T).unwrap().amount, 455);
    assert_eq!(coin_record(&store, A, "other").unwrap().amount, 9);
    assert_eq!(coin_record(&store, B, T).unwrap().amount, 11);
}

#[test]
fn listing_and_custody_go_together() {
    let mut store = MemoryStorage::new();
    // nothing in custody: nothing listed
    assert_eq!(
        execute_purchase(&mut store, from(T), s(C), s("0"), s(B), 500),
        Err(ContractError::NoSuchAsk)
    );
    listed_item(&mut store);
    assert_eq!(query_cw721_deposits(&store, s(A), s(C)).unwrap().deposits.len(), 1);
    assert_eq!(
        execute_purchase(&mut store, from(T), s(C), s("0"), s(B), 499),
        Err(ContractError::InvalidAmount)
    );
    let res = execute_cw721_withdraw(&mut store, from(A), s(C), s("0")).unwrap();
    assert_eq!(
        res.messages,
        vec![Instruction::TransferItem { contract: s(C), recipient: s(A), token_id: s("0") }]
    );
    assert!(query_cw721_deposits(&store, s(A), s(C)).unwrap().deposits.is_empty());
    assert_eq!(
        execute_purchase(&mut store, from(T), s(C), s("0"), s(B), 500),
        Err(ContractError::NoSuchAsk)
    );
}

#[test]
fn each_accepted_bid_exceeds_the_one_before() {
    let mut store = MemoryStorage::new();
    listed_item(&mut store);
    let mut recorded = Vec::new();
    for offered in [100u128, 100, 99, 101, 300, 250, 499, 500, 501] {
        let r = execute_place_bid(&mut store, from(T), s(C), s("0"), s(B), offered);
        if r.is_ok() {
            recorded.push(query_bids(&store, s(C), s("0")).unwrap().bids.unwrap().amount);
        }
    }
    assert_eq!(recorded, vec![100, 101, 300, 499]);
}

#[test]
fn only_the_bidder_takes_a_bid_back() {
    let mut store = MemoryStorage::new();
    listed_item(&mut store);
    execute_place_bid(&mut store, from(T), s(C), s("0"), s(B), 200).unwrap();
    let before = query_bids(&store, s(C), s("0")).unwrap();
    for other in [A, D, C, T, "", "Bob", "bob "] {
        assert_eq!(
            execute_withdraw_bid(&mut store, from(other), s(C), s("0")),
            Err(ContractError::Unauthorized)
        );
        assert_eq!(query_bids(&store, s(C), s("0")).unwrap(), before);
    }
}

#[test]
fn purchase_needs_the_exact_price() {
    let mut store = MemoryStorage::new();
    listed_item(&mut store);
    for paid in [0u128, 499, 501, u128::MAX] {
        assert_eq!(
            execute_purchase(&mut store, from(T), s(C), s("0"), s(B), paid),
            Err(ContractError::InvalidAmount)
        );
    }
    assert_eq!(query_cw721_deposits(&store, s(A), s(C)).unwrap().deposits.len(), 1);
    assert!(execute_purchase(&mut store, from(T), s(C), s("0"), s(B), 500).is_ok());
}

#[test]
fn purchase_clears_a_standing_bid() {
    let mut store = MemoryStorage::new();
    listed_item(&mut store);
    execute_place_bid(&mut store, from(T), s(C), s("0"), s(D), 200).unwrap();
    assert!(store.get(b"\x00\x04bids\x00\x0acollection0").is_some());
    let res = execute_purchase(&mut store, from(T), s(C), s("0"), s(B), 500).unwrap();
    // one transfer, of the item to the buyer: no refund of the bid
    assert_eq!(
        res.messages,
        vec![Instruction::TransferItem { contract: s(C), recipient: s(B), token_id: s("0") }]
    );
    assert_eq!(query_bids(&store, s(C), s("0")).unwrap().bids, None);
    assert_eq!(store.get(b"\x00\x04bids\x00\x0acollection0"), None);
    assert_eq!(
        execute_withdraw_bid(&mut store, from(D), s(C), s("0")),
        Err(ContractError::NoBidToWithdraw)
    );
    // a bid on another item of the collection stays
    execute_cw721_deposit(&mut store, from(C), s(A), s("1"), s(T), 500).unwrap();
    execute_cw721_deposit(&mut store, from(C), s(A), s("2"), s(T), 500).unwrap();
    execute_place_bid(&mut store, from(T), s(C), s("1"), s(D), 200).unwrap();
    execute_purchase(&mut store, from(T), s(C), s("2"), s(B), 500).unwrap();
    assert_eq!(query_bids(&store, s(C), s("1")).unwrap().bids.unwrap().amount, 200);
}

#[test]
fn a_refused_purchase_leaves_the_bid() {
    let mut store = MemoryStorage::new();
    listed_item(&mut store);
    execute_place_bid(&mut store, from(T), s(C), s("0"), s(D), 200).unwrap();
    assert_eq!(
        execute_purchase(&mut store, from(T), s(C), s("0"), s(B), 499),
        Err(ContractError::InvalidAmount)
    );
    assert_eq!(query_bids(&store, s(C), s("0")).unwrap().bids.unwrap().bidder, s(D));
}

#[test]
fn a_higher_bid_replaces_the_standing_one() {
    let mut store = MemoryStorage::new();
    listed_item(&mut store);
    execute_place_bid(&mut store, from(T), s(C), s("0"), s(B), 200).unwrap();
    let res = execute_place_bid(&mut store, from("other"), s(C), s("0"), s(D), 201).unwrap();
    assert!(res.messages.is_empty());
    assert_eq!(
        query_bids(&store, s(C), s("0")).unwrap().bids,
        Some(Bid {
            bidder: s(D),
            cw721_contract: s(C),
            token_id: s("0"),
            cw20_contract: s("other"),
            amount: 201
        })
    );
    assert_eq!(
        execute_withdraw_bid(&mut store, from(B), s(C), s("0")),
        Err(ContractError::Unauthorized)
    );
}

#[test]
fn an_item_is_deposited_once() {
    let mut store = MemoryStorage::new();
    listed_item(&mut store);
    assert_eq!(
        execute_cw721_deposit(&mut store, from(C), s(A), s("0"), s(T), 700),
        Err(ContractError::AlreadyDeposited)
    );
    // the listing is as it was
    assert_eq!(
        execute_purchase(&mut store, from(T), s(C), s("0"), s(B), 700),
        Err(ContractError::InvalidAmount)
    );
    // another item, another collection: each its own record
    assert!(execute_cw721_deposit(&mut store, from(C), s(A), s("1"), s(T), 700).is_ok());
    assert!(execute_cw721_deposit(&mut store, from("other"), s(A), s("0"), s(T), 700).is_ok());
}

#[test]
fn withdrawal_needs_a_record_that_covers_it() {
    let mut store = MemoryStorage::new();
    assert_eq!(
        execute_cw20_withdraw(&mut store, from(A), s(T), 0),
        Err(ContractError::InsufficientDeposit)
    );
    execute_cw20_deposit(&mut store, from(T), s(A), 500).unwrap();
    assert_eq!(
        execute_cw20_withdraw(&mut store, from(A), s(T), 501),
        Err(ContractError::InsufficientDeposit)
    );
    assert_eq!(
        execute_cw20_withdraw(&mut store, from(B), s(T), 1),
        Err(ContractError::InsufficientDeposit)
    );
    let res = execute_cw20_withdraw(&mut store, from(A), s(T), 500).unwrap();
    assert_eq!(
        res.messages,
        vec![Instruction::TransferCoin { contract: s(T), recipient: s(A), amount: 500 }]
    );
    // the record stays, at zero
    assert_eq!(
        coin_record(&store, A, T),
        Some(Cw20Deposits { count: 0, owner: s(A), contract: s(T), amount: 0 })
    );
    // it was drawn on as often as topped up
    assert_eq!(
        execute_cw20_withdraw(&mut store, from(A), s(T), 0),
        Err(ContractError::ArithmeticUnderflow)
    );
    assert_eq!(
        coin_record(&store, A, T),
        Some(Cw20Deposits { count: 0, owner: s(A), contract: s(T), amount: 0 })
    );
}

#[test]
fn a_record_is_drawn_on_as_often_as_topped_up() {
    let mut store = MemoryStorage::new();
    execute_cw20_deposit(&mut store, from(T), s(A), 500).unwrap();
    execute_cw20_withdraw(&mut store, from(A), s(T), 100).unwrap();
    // one deposit, one withdrawal: the count is at zero and stays there
    assert_eq!(
        execute_cw20_withdraw(&mut store, from(A), s(T), 400),
        Err(ContractError::ArithmeticUnderflow)
    );
    assert_eq!(
        coin_record(&store, A, T),
        Some(Cw20Deposits { count: 0, owner: s(A), contract: s(T), amount: 400 })
    );
    // a further deposit, of nothing even, allows a further withdrawal
    execute_cw20_deposit(&mut store, from(T), s(A), 0).unwrap();
    let res = execute_cw20_withdraw(&mut store, from(A), s(T), 400).unwrap();
    assert_eq!(
        res.messages,
        vec![Instruction::TransferCoin { contract: s(T), recipient: s(A), amount: 400 }]
    );
    assert_eq!(
        coin_record(&store, A, T),
        Some(Cw20Deposits { count: 0, owner: s(A), contract: s(T), amount: 0 })
    );
}

#[test]
fn a_balance_does_not_wrap() {
    let mut store = MemoryStorage::new();
    execute_cw20_deposit(&mut store, from(T), s(A), u128::MAX).unwrap();
    assert_eq!(
        execute_cw20_deposit(&mut store, from(T), s(A), 1),
        Err(ContractError::ArithmeticOverflow)
    );
    assert_eq!(
        coin_record(&store, A, T),
        Some(Cw20Deposits { count: 1, owner: s(A), contract: s(T), amount: u128::MAX })
    );
    execute_cw20_deposit(&mut store, from(T), s(A), 0).unwrap();
    assert_eq!(coin_record(&store, A, T).unwrap().count, 2);
}

#[test]
fn credit_and_debit_on_given_records() {
    let held = Cw20Deposits { count: 3, owner: s(A), contract: s(T), amount: 40 };
    assert_eq!(
        credit(None, s(A), s(T), 7),
        Ok(Cw20Deposits { count: 1, owner: s(A), contract: s(T), amount: 7 })
    );
    assert_eq!(
        credit(Some(held.clone()), s("x"), s("y"), 2),
        Ok(Cw20Deposits { count: 4, owner: s(A), contract: s(T), amount: 42 })
    );
    let full = Cw20Deposits { count: i32::MAX, owner: s(A), contract: s(T), amount: 0 };
    assert_eq!(credit(Some(full), s(A), s(T), 1), Err(ContractError::ArithmeticOverflow));
    let rich = Cw20Deposits { count: 1, owner: s(A), contract: s(T), amount: u128::MAX - 1 };
    assert_eq!(credit(Some(rich.clone()), s(A), s(T), 2), Err(ContractError::ArithmeticOverflow));
    assert_eq!(credit(Some(rich), s(A), s(T), 1).unwrap().amount, u128::MAX);

    assert_eq!(debit(None, 0), Err(ContractError::InsufficientDeposit));
    assert_eq!(debit(Some(held.clone()), 41), Err(ContractError::InsufficientDeposit));
    assert_eq!(
        debit(Some(held.clone()), 40),
        Ok(Cw20Deposits { count: 2, owner: s(A), contract: s(T), amount: 0 })
    );
    assert_eq!(
        debit(Some(held), 15),
        Ok(Cw20Deposits { count: 2, owner: s(A), contract: s(T), amount: 25 })
    );
    let spent = Cw20Deposits { count: 0, owner: s(A), contract: s(T), amount: 5 };
    assert_eq!(debit(Some(spent.clone()), 5), Err(ContractError::ArithmeticUnderflow));
    assert_eq!(debit(Some(spent.clone()), 0), Err(ContractError::ArithmeticUnderflow));
    assert_eq!(debit(Some(spent), 6), Err(ContractError::InsufficientDeposit));
    let once = Cw20Deposits { count: 1, owner: s(A), contract: s(T), amount: 5 };
    assert_eq!(
        debit(Some(once), 5),
        Ok(Cw20Deposits { count: 0, owner: s(A), contract: s(T), amount: 0 })
    );
    let lowest = Cw20Deposits { count: i32::MIN, owner: s(A), contract: s(T), amount: 5 };
    assert_eq!(debit(Some(lowest), 5), Err(ContractError::ArithmeticUnderflow));
    let most = Cw20Deposits { count: i32::MAX, owner: s(A), contract: s(T), amount: 5 };
    assert_eq!(debit(Some(most), 5).unwrap().count, i32::MAX - 1);
}

#[test]
fn a_key_part_has_at_most_65535_bytes() {
    let mut store = MemoryStorage::new();
    let long = "k".repeat(65536);
    let fits = "k".repeat(65535);
    let wide = "\u{e9}".repeat(32768);
    assert_eq!(
        execute_cw20_deposit(&mut store, from(T), long.clone(), 1),
        Err(ContractError::KeyTooLong)
    );
    assert_eq!(
        execute_cw20_deposit(&mut store, from(T), wide.clone(), 1),
        Err(ContractError::KeyTooLong)
    );
    assert!(execute_cw20_deposit(&mut store, from(T), fits.clone(), 1).is_ok());
    assert_eq!(coin_record(&store, &fits, T).unwrap().amount, 1);
    // the last part of a key is not limited
    assert!(execute_cw20_deposit(&mut store, from(&long), s(A), 1).is_ok());
    assert_eq!(coin_record(&store, A, &long).unwrap().amount, 1);
    assert_eq!(
        execute_cw20_withdraw(&mut store, from(&long), s(T), 1),
        Err(ContractError::KeyTooLong)
    );
    assert_eq!(
        execute_cw721_deposit(&mut store, from(&long), s(A), s("0"), s(T), 1),
        Err(ContractError::KeyTooLong)
    );
    assert_eq!(
        execute_cw721_deposit(&mut store, from(C), long.clone(), s("0"), s(T), 1),
        Err(ContractError::KeyTooLong)
    );
    assert_eq!(
        execute_cw721_withdraw(&mut store, from(A), long.clone(), s("0")),
        Err(ContractError::KeyTooLong)
    );
    assert_eq!(
        execute_purchase(&mut store, from(T), long.clone(), s("0"), s(B), 1),
        Err(ContractError::KeyTooLong)
    );
    assert_eq!(
        execute_place_bid(&mut store, from(T), long.clone(), s("0"), s(B), 1),
        Err(ContractError::KeyTooLong)
    );
    assert_eq!(
        execute_withdraw_bid(&mut store, from(B), long.clone(), s("0")),
        Err(ContractError::KeyTooLong)
    );
    assert_eq!(query_cw20_deposits(&store, long.clone()), Err(ContractError::KeyTooLong));
    assert_eq!(query_cw721_deposits(&store, s(A), long.clone()), Err(ContractError::KeyTooLong));
    assert_eq!(query_cw721_deposits(&store, long.clone(), s(C)), Err(ContractError::KeyTooLong));
    assert_eq!(query_bids(&store, long.clone(), s("0")), Err(ContractError::KeyTooLong));
    assert!(execute_cw721_deposit(&mut store, from(C), s(A), long.clone(), s(T), 1).is_ok());
    assert_eq!(query_cw721_deposits(&store, s(A), s(C)).unwrap().deposits[0].0, long);
}

#[test]
fn listings_come_by_ascending_key() {
    let mut store = MemoryStorage::new();
    for token in ["b", "a", "", "ab", "\u{e9}", "B", "a\u{0}", "\u{10348}", "\u{ffff}", "z"] {
        execute_cw20_deposit(&mut store, from(token), s(A), 1).unwrap();
    }
    execute_cw20_deposit(&mut store, from("aa"), s(B), 1).unwrap();
    execute_cw20_deposit(&mut store, from("aa"), s("alic"), 1).unwrap();
    execute_cw20_deposit(&mut store, from("aa"), s("alicea"), 1).unwrap();
    let listed = query_cw20_deposits(&store, s(A)).unwrap().deposits;
    let keys: Vec<&str> = listed.iter().map(|(k, _)| k.as_str()).collect();
    assert_eq!(
        keys,
        vec!["", "B", "a", "a\u{0}", "ab", "b", "z", "\u{e9}", "\u{ffff}", "\u{10348}"]
    );
    for (key, record) in &listed {
        assert_eq!(&record.contract, key);
        assert_eq!(record.owner, A);
    }

    for item in ["10", "9", "1", "2"] {
        execute_cw721_deposit(&mut store, from(C), s(A), s(item), s(T), 1).unwrap();
    }
    execute_cw721_deposit(&mut store, from(C), s(B), s("5"), s(T), 1).unwrap();
    execute_cw721_deposit(&mut store, from("other"), s(A), s("6"), s(T), 1).unwrap();
    let listed = query_cw721_deposits(&store, s(A), s(C)).unwrap().deposits;
    let keys: Vec<&str> = listed.iter().map(|(k, _)| k.as_str()).collect();
    assert_eq!(keys, vec!["1", "10", "2", "9"]);
    assert_eq!(
        listed[1].1,
        Cw721Deposits { owner: s(A), contract: s(C), token_id: s("10") }
    );
    assert!(query_cw721_deposits(&store, s(C), s(A)).unwrap().deposits.is_empty());
}

#[test]
fn records_come_back_as_they_were_written() {
    let odd = ["", "\"", "\\", "a\"b\\c", "line\nbreak\ttab\r", "\u{0}\u{1f}\u{7f}", "\u{e9}\u{10348}", "{\"k\":[1]}", " "];
    let mut store = MemoryStorage::new();
    for (n, text) in odd.iter().enumerate() {
        let item = format!("{}{}", n, text);
        execute_cw721_deposit(&mut store, from(text), s(text), item.clone(), s(text), n as u128)
            .unwrap();
        execute_place_bid(&mut store, from(text), s(text), item.clone(), s(text), u128::MAX)
            .unwrap_err();
        execute_cw20_deposit(&mut store, from(text), s(text), u128::MAX - n as u128).unwrap();
        assert_eq!(
            query_cw721_deposits(&store, s(text), s(text)).unwrap().deposits,
            vec![(item.clone(), Cw721Deposits { owner: s(text), contract: s(text), token_id: item.clone() })]
        );
        assert_eq!(
            coin_record(&store, text, text),
            Some(Cw20Deposits { count: 1, owner: s(text), contract: s(text), amount: u128::MAX - n as u128 })
        );
        if n > 0 {
            execute_place_bid(&mut store, from(text), s(text), item.clone(), s(text), n as u128 - 1)
                .unwrap();
            assert_eq!(
                query_bids(&store, s(text), item.clone()).unwrap().bids,
                Some(Bid {
                    bidder: s(text),
                    cw721_contract: s(text),
                    token_id: item.clone(),
                    cw20_contract: s(text),
                    amount: n as u128 - 1
                })
            );
        }
        let res = execute_purchase(&mut store, from(text), s(text), item.clone(), s(text), n as u128)
            .unwrap();
        assert_eq!(
            res.messages,
            vec![Instruction::TransferItem { contract: s(text), recipient: s(text), token_id: item }]
        );
    }
}

#[test]
fn what_does_not_decode_is_told_apart() {
    let mut store = MemoryStorage::new();
    // an entry of the map of bids, under ("c", "0"), that is no bid
    store.set(b"\x00\x04bids\x00\x01c0", b"\"nonsense\"");
    assert!(matches!(query_bids(&store, s("c"), s("0")), Err(ContractError::Std(_))));
    // to the transitions it is no bid
    assert_eq!(
        execute_withdraw_bid(&mut store, from(B), s("c"), s("0")),
        Err(ContractError::NoBidToWithdraw)
    );
    execute_place_bid(&mut store, from(T), s("c"), s("0"), s(B), 1).unwrap();
    assert_eq!(query_bids(&store, s("c"), s("0")).unwrap().bids.unwrap().amount, 1);

    // an entry of the map of coin deposits, under ("alice", "t"), that is no record
    store.set(b"\x00\x0ccw20deposits\x00\x05alicet", b"[1]");
    assert!(matches!(query_cw20_deposits(&store, s(A)), Err(ContractError::Std(_))));
    assert_eq!(query_cw20_deposits(&store, s(B)).unwrap().deposits.len(), 0);
    execute_cw20_deposit(&mut store, from("t"), s(A), 5).unwrap();
    assert_eq!(
        coin_record(&store, A, "t"),
        Some(Cw20Deposits { count: 1, owner: s(A), contract: s("t"), amount: 5 })
    );

    // an entry of the map of item deposits holds its place whatever it says
    store.set(b"\x00\x0dcw721deposits\x00\x01c\x00\x05alice0", b"0");
    assert_eq!(
        execute_cw721_deposit(&mut store, from("c"), s(A), s("0"), s(T), 1),
        Err(ContractError::AlreadyDeposited)
    );
    assert!(matches!(query_cw721_deposits(&store, s(A), s("c")), Err(ContractError::Std(_))));
    assert!(execute_cw721_withdraw(&mut store, from(A), s("c"), s("0")).is_ok());
    assert!(query_cw721_deposits(&store, s(A), s("c")).unwrap().deposits.is_empty());
}

#[test]
fn the_books_are_laid_out_under_their_names() {
    let mut store = MemoryStorage::new();
    execute_cw20_deposit(&mut store, from("t"), s("al"), 500).unwrap();
    assert_eq!(
        store.get(b"\x00\x0ccw20deposits\x00\x02alt"),
        Some(b"[1,\"al\",\"t\",\"500\"]".to_vec())
    );
    execute_cw721_deposit(&mut store, from("c"), s("al"), s("7"), s("t"), 9).unwrap();
    assert_eq!(
        store.get(b"\x00\x0dcw721deposits\x00\x01c\x00\x02al7"),
        Some(b"[\"al\",\"c\",\"7\"]".to_vec())
    );
    assert_eq!(
        store.get(b"\x00\x04asks\x00\x01c7"),
        Some(b"[\"al\",\"c\",\"7\",\"t\",\"9\"]".to_vec())
    );
    execute_place_bid(&mut store, from("t"), s("c"), s("7"), s("bo"), 8).unwrap();
    assert_eq!(
        store.get(b"\x00\x04bids\x00\x01c7"),
        Some(b"[\"bo\",\"c\",\"7\",\"t\",\"8\"]".to_vec())
    );
    execute_withdraw_bid(&mut store, from("bo"), s("c"), s("7")).unwrap();
    assert_eq!(store.get(b"\x00\x04bids\x00\x01c7"), None);
    execute_cw721_withdraw(&mut store, from("al"), s("c"), s("7")).unwrap();
    assert_eq!(store.get(b"\x00\x04asks\x00\x01c7"), None);
    assert_eq!(store.get(b"\x00\x0dcw721deposits\x00\x01c\x00\x02al7"), None);
}

#[test]
fn a_second_depositor_takes_over_the_listing() {
    let mut store = MemoryStorage::new();
    listed_item(&mut store);
    // the same item, for another owner: a record of its own, and the listing is replaced
    assert!(execute_cw721_deposit(&mut store, from(C), s(B), s("0"), s(T), 900).is_ok());
    assert_eq!(
        execute_purchase(&mut store, from(T), s(C), s("0"), s(D), 500),
        Err(ContractError::InvalidAmount)
    );
    // the first depositor withdraws: the listing ends, the second record stays
    assert!(execute_cw721_withdraw(&mut store, from(A), s(C), s("0")).is_ok());
    assert_eq!(
        execute_purchase(&mut store, from(T), s(C), s("0"), s(D), 900),
        Err(ContractError::NoSuchAsk)
    );
    assert_eq!(query_cw721_deposits(&store, s(B), s(C)).unwrap().deposits.len(), 1);
}

#[test]
fn every_character_survives_the_store() {
    let mut low = String::new();
    for code in 0u32..=0x7f {
        low.push(char::from_u32(code).unwrap());
    }
    let edges = "\u{80}\u{7ff}\u{800}\u{d7ff}\u{e000}\u{fffd}\u{ffff}\u{10000}\u{10ffff}";
    for text in [low.as_str(), edges] {
        let mut store = MemoryStorage::new();
        execute_cw20_deposit(&mut store, from(text), s(text), 3).unwrap();
        execute_cw20_deposit(&mut store, from(text), s(text), 4).unwrap();
        assert_eq!(
            query_cw20_deposits(&store, s(text)).unwrap().deposits,
            vec![(s(text), Cw20Deposits { count: 2, owner: s(text), contract: s(text), amount: 7 })]
        );
        execute_cw721_deposit(&mut store, from(text), s(text), s(text), s(text), 3).unwrap();
        execute_place_bid(&mut store, from(text), s(text), s(text), s(text), 2).unwrap();
        let res = execute_withdraw_bid(&mut store, from(text), s(text), s(text)).unwrap();
        assert_eq!(
            res.messages,
            vec![Instruction::TransferCoin { contract: s(text), recipient: s(text), amount: 2 }]
        );
        assert_eq!(
            execute_purchase(&mut store, from(text), s(text), s(text), s("buyer"), 3).unwrap().messages,
            vec![Instruction::TransferItem { contract: s(text), recipient: s("buyer"), token_id: s(text) }]
        );
    }
}
