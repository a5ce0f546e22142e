use cosmwasm_std::{MemoryStorage, Storage};
use deposit_cw20::contract::{
    execute_cw20_deposit, execute_cw20_withdraw, instantiate, query_cw20_deposits,
};
use deposit_cw20::error::ContractError;
use deposit_cw20::msg::{Action, InstantiateMsg, Instruction, MessageInfo, MigrateMsg};
use deposit_cw20::state::Cw20Deposits;

const SENDER: &str = "sender_address";
const AMOUNT: u128 = 100000;
const DENOM: &str = "utest";

fn info(sender: &str) -> MessageInfo {
    MessageInfo { sender: sender.to_string() }
}

fn setup_contract(store: &mut MemoryStorage) {
    let msg = InstantiateMsg {};
    let res = instantiate(store, info(SENDER), msg).unwrap();
    println!("{:?}", res);
    assert_eq!(0, res.messages.len());
}

#[test]
fn _0_instantiate() {
    let mut store = MemoryStorage::new();
    setup_contract(&mut store);
}

#[test]
fn _1_deposit() {
    let mut store = MemoryStorage::new();
    setup_contract(&mut store);
    let res = execute_cw20_deposit(&mut store, info(DENOM), SENDER.to_string(), AMOUNT).unwrap();
    assert_eq!(res.action, Action::Cw20Deposit);
    assert_eq!(0, res.messages.len());
}

#[test]
fn _2_query_deposit() {
    let mut store = MemoryStorage::new();
    setup_contract(&mut store);
    execute_cw20_deposit(&mut store, info(DENOM), SENDER.to_string(), AMOUNT).unwrap();
    let res = query_cw20_deposits(&store, SENDER.to_string()).unwrap();
    assert_eq!(
        res.deposits,
        vec![(
            DENOM.to_string(),
            Cw20Deposits {
                count: 1,
                owner: SENDER.to_string(),
                contract: DENOM.to_string(),
                amount: AMOUNT,
            }
        )]
    );
}

#[test]
fn _1_deposit_then_withdraw() {
    let mut store = MemoryStorage::new();
    setup_contract(&mut store);
    execute_cw20_deposit(&mut store, info(DENOM), SENDER.to_string(), AMOUNT).unwrap();
    let res = execute_cw20_withdraw(&mut store, info(SENDER), DENOM.to_string(), AMOUNT).unwrap();
    assert_eq!(res.action, Action::Cw20Withdraw);
    assert_eq!(
        res.messages,
        vec![Instruction::TransferCoin {
            contract: DENOM.to_string(),
            recipient: SENDER.to_string(),
            amount: AMOUNT,
        }]
    );
    let left = query_cw20_deposits(&store, SENDER.to_string()).unwrap();
    assert_eq!(
        left.deposits,
        vec![(
            DENOM.to_string(),
            Cw20Deposits {
                count: 0,
                owner: SENDER.to_string(),
                contract: DENOM.to_string(),
                amount: 0,
            }
        )]
    );
    assert_eq!(
        execute_cw20_withdraw(&mut store, info(SENDER), DENOM.to_string(), 1),
        Err(ContractError::InsufficientDeposit)
    );
}

#[test]
fn instantiate_stamps_the_store_and_no_book() {
    let mut store = MemoryStorage::new();
    execute_cw20_deposit(&mut store, info(DENOM), SENDER.to_string(), AMOUNT).unwrap();
    let before = query_cw20_deposits(&store, SENDER.to_string()).unwrap();
    let res = instantiate(&mut store, info(SENDER), InstantiateMsg {}).unwrap();
    assert_eq!(res.action, Action::Instantiate);
    assert!(res.messages.is_empty());
    assert_eq!(
        store.get(b"contract_info"),
        Some(b"{\"contract\":\"deposit-cw20-example\",\"version\":\"0.1.0\"}".to_vec())
    );
    assert_eq!(query_cw20_deposits(&store, SENDER.to_string()).unwrap(), before);
}

#[test]
fn migrating_takes_no_parameters() {
    assert_eq!(MigrateMsg {}, MigrateMsg {}.clone());
}
