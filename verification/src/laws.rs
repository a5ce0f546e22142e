//! What holds of the rules whatever the books contain.

use crate::error::ContractError;
use crate::model::{empty_ledger, is_listing, key_fits, keys_fit, row_keys, text_lt, LedgerView};
use crate::msg::{
    Action, Cw20HookMsg, Cw721HookMsg, ExecuteMsg, InstructionView, Response, ResponseView,
};
use crate::rules::{
    asking, carried_out, deposit_coin_step, deposit_item_step, executed, place_bid_step,
    purchase_step, quiet, withdraw_bid_step, withdraw_coin_step, withdraw_item_step, Step,
};
use crate::state::{BidView, CoinDepositView, ItemDepositView, OfferView};
use vstd::prelude::*;

verus! {

/// A deposit or a withdrawal of an amount, on one custody record.
pub enum CoinOp {
    Deposit(nat),
    Withdraw(nat),
}

/// What one operation on the record of (`owner`, `contract`) makes of the
/// books.
pub open spec fn coin_step(pre: LedgerView, owner: Seq<char>, contract: Seq<char>, op: CoinOp) -> Step {
    match op {
        CoinOp::Deposit(amount) => deposit_coin_step(pre, owner, contract, amount),
        CoinOp::Withdraw(amount) => withdraw_coin_step(pre, owner, contract, amount),
    }
}

/// The books after a sequence of operations on the record of (`owner`,
/// `contract`), in order. An operation that is refused leaves them as they
/// were.
pub open spec fn after_coin_ops(
    pre: LedgerView,
    owner: Seq<char>,
    contract: Seq<char>,
    ops: Seq<CoinOp>,
) -> LedgerView
    decreases ops.len(),
{
    if ops.len() == 0 {
        pre
    } else {
        let before = after_coin_ops(pre, owner, contract, ops.drop_last());
        match coin_step(before, owner, contract, ops.last()) {
            Ok((next, _)) => next,
            Err(_) => before,
        }
    }
}

/// The amounts deposited less the amounts withdrawn, over the operations of
/// the sequence that were not refused.
pub open spec fn net_deposited(
    pre: LedgerView,
    owner: Seq<char>,
    contract: Seq<char>,
    ops: Seq<CoinOp>,
) -> int
    decreases ops.len(),
{
    if ops.len() == 0 {
        0
    } else {
        let before = after_coin_ops(pre, owner, contract, ops.drop_last());
        let earlier = net_deposited(pre, owner, contract, ops.drop_last());
        match (coin_step(before, owner, contract, ops.last()), ops.last()) {
            (Ok(_), CoinOp::Deposit(amount)) => earlier + amount,
            (Ok(_), CoinOp::Withdraw(amount)) => earlier - amount,
            (Err(_), _) => earlier,
        }
    }
}

/// The units held for `owner` in token `contract`: none where there is no
/// record.
pub open spec fn balance(ledger: LedgerView, owner: Seq<char>, contract: Seq<char>) -> nat {
    if ledger.coins.contains_key((owner, contract)) {
        ledger.coins[(owner, contract)].amount
    } else {
        0
    }
}

/// The count of the record of (`owner`, `contract`): zero where there is
/// no record.
pub open spec fn top_ups(ledger: LedgerView, owner: Seq<char>, contract: Seq<char>) -> int {
    if ledger.coins.contains_key((owner, contract)) {
        ledger.coins[(owner, contract)].count
    } else {
        0
    }
}

/// The deposits less the withdrawals, over the operations of the sequence
/// that were not refused.
pub open spec fn net_count(
    pre: LedgerView,
    owner: Seq<char>,
    contract: Seq<char>,
    ops: Seq<CoinOp>,
) -> int
    decreases ops.len(),
{
    if ops.len() == 0 {
        0
    } else {
        let before = after_coin_ops(pre, owner, contract, ops.drop_last());
        let earlier = net_count(pre, owner, contract, ops.drop_last());
        match (coin_step(before, owner, contract, ops.last()), ops.last()) {
            (Ok(_), CoinOp::Deposit(_)) => earlier + 1,
            (Ok(_), CoinOp::Withdraw(_)) => earlier - 1,
            (Err(_), _) => earlier,
        }
    }
}

/// Conservation. After any sequence of deposits and withdrawals on one
/// custody record, the balance is what it was plus what was deposited less
/// what was withdrawn; it is never negative, and no other record and no
/// other book has changed.
pub proof fn lemma_conservation(
    pre: LedgerView,
    owner: Seq<char>,
    contract: Seq<char>,
    ops: Seq<CoinOp>,
)
    ensures
        balance(after_coin_ops(pre, owner, contract, ops), owner, contract) == balance(
            pre,
            owner,
            contract,
        ) + net_deposited(pre, owner, contract, ops),
        balance(pre, owner, contract) + net_deposited(pre, owner, contract, ops) >= 0,
        after_coin_ops(pre, owner, contract, ops).coins.remove((owner, contract))
            == pre.coins.remove((owner, contract)),
        after_coin_ops(pre, owner, contract, ops) == (LedgerView {
            coins: after_coin_ops(pre, owner, contract, ops).coins,
            ..pre
        }),
    decreases ops.len(),
{
    if ops.len() > 0 {
        lemma_conservation(pre, owner, contract, ops.drop_last());
        let before = after_coin_ops(pre, owner, contract, ops.drop_last());
        let after = after_coin_ops(pre, owner, contract, ops);
        let key = (owner, contract);
        assert(after.coins.remove(key) =~= before.coins.remove(key));
    }
}

/// On books that start empty, the balance is exactly what was deposited
/// less what was withdrawn.
pub proof fn lemma_conservation_from_empty(owner: Seq<char>, contract: Seq<char>, ops: Seq<CoinOp>)
    ensures
        balance(after_coin_ops(empty_ledger(), owner, contract, ops), owner, contract)
            == net_deposited(empty_ledger(), owner, contract, ops),
{
    lemma_conservation(empty_ledger(), owner, contract, ops);
}

/// The count of a custody record is what it was, plus the deposits, less
/// the withdrawals.
pub proof fn lemma_count_follows(
    pre: LedgerView,
    owner: Seq<char>,
    contract: Seq<char>,
    ops: Seq<CoinOp>,
)
    ensures
        top_ups(after_coin_ops(pre, owner, contract, ops), owner, contract) == top_ups(
            pre,
            owner,
            contract,
        ) + net_count(pre, owner, contract, ops),
    decreases ops.len(),
{
    if ops.len() > 0 {
        lemma_count_follows(pre, owner, contract, ops.drop_last());
    }
}

/// A count that is not negative stays so under deposits and withdrawals: a
/// record is drawn on at most as often as it was topped up.
pub proof fn lemma_count_never_negative(
    pre: LedgerView,
    owner: Seq<char>,
    contract: Seq<char>,
    ops: Seq<CoinOp>,
)
    requires
        top_ups(pre, owner, contract) >= 0,
    ensures
        top_ups(after_coin_ops(pre, owner, contract, ops), owner, contract) >= 0,
    decreases ops.len(),
{
    if ops.len() > 0 {
        lemma_count_never_negative(pre, owner, contract, ops.drop_last());
    }
}

/// A deposit or a withdrawal that is carried out leaves the record in
/// place, with a count that is not negative where it was not before.
pub proof fn lemma_coin_step_keeps_count(
    pre: LedgerView,
    owner: Seq<char>,
    contract: Seq<char>,
    op: CoinOp,
)
    requires
        top_ups(pre, owner, contract) >= 0,
    ensures
        coin_step(pre, owner, contract, op) matches Ok((post, _)) ==> top_ups(
            post,
            owner,
            contract,
        ) >= 0 && post.coins.contains_key((owner, contract)),
{
}

/// Custody and listing go together: each item in custody is listed by the
/// owner it is held for, and each listing is of an item in custody for the
/// owner it names.
pub open spec fn listed_consistently(ledger: LedgerView) -> bool {
    &&& forall|c: Seq<char>, o: Seq<char>, i: Seq<char>| #[trigger]
        ledger.slots.contains((c, o, i)) ==> ledger.asks.contains_key((c, i)) && ledger.asks[(
            c,
            i,
        )].owner == o
    &&& forall|c: Seq<char>, i: Seq<char>| #[trigger]
        ledger.asks.contains_key((c, i)) ==> ledger.slots.contains(
            (c, ledger.asks[(c, i)].owner, i),
        )
}

/// Item `token_id` of `collection` is in custody for someone.
pub open spec fn in_custody(ledger: LedgerView, collection: Seq<char>, token_id: Seq<char>) -> bool {
    exists|o: Seq<char>| #[trigger] ledger.slots.contains((collection, o, token_id))
}

/// Single ask. Where custody and listing go together, an item is listed if
/// and only if it is in custody, and then for one owner only.
pub proof fn lemma_single_ask(ledger: LedgerView, collection: Seq<char>, token_id: Seq<char>)
    requires
        listed_consistently(ledger),
    ensures
        ledger.asks.contains_key((collection, token_id)) <==> in_custody(
            ledger,
            collection,
            token_id,
        ),
        forall|o1: Seq<char>, o2: Seq<char>|
            ledger.slots.contains((collection, o1, token_id)) && ledger.slots.contains(
                (collection, o2, token_id),
            ) ==> o1 == o2,
{
    if ledger.asks.contains_key((collection, token_id)) {
        assert(ledger.slots.contains(
            (collection, ledger.asks[(collection, token_id)].owner, token_id),
        ));
    }
}

/// Books without entries keep custody and listing together.
pub proof fn lemma_empty_listed_consistently()
    ensures
        listed_consistently(empty_ledger()),
{
}

/// Depositing an item keeps custody and listing together, unless the item
/// is listed for another owner: then the deposit takes the listing over and
/// the earlier custody record is left without one.
pub proof fn lemma_deposit_item_keeps_listing(
    pre: LedgerView,
    collection: Seq<char>,
    owner: Seq<char>,
    token_id: Seq<char>,
    cw20_contract: Seq<char>,
    amount: nat,
)
    requires
        listed_consistently(pre),
        pre.asks.contains_key((collection, token_id)) ==> pre.asks[(collection, token_id)].owner
            == owner,
    ensures
        deposit_item_step(pre, collection, owner, token_id, cw20_contract, amount) matches Ok(
            (post, _),
        ) ==> listed_consistently(post),
{
}

/// Returning an item to its depositor keeps custody and listing together.
pub proof fn lemma_withdraw_item_keeps_listing(
    pre: LedgerView,
    collection: Seq<char>,
    owner: Seq<char>,
    token_id: Seq<char>,
)
    requires
        listed_consistently(pre),
    ensures
        withdraw_item_step(pre, collection, owner, token_id) matches Ok((post, _))
            ==> listed_consistently(post),
{
}

/// A purchase keeps custody and listing together.
pub proof fn lemma_purchase_keeps_listing(
    pre: LedgerView,
    buyer: Seq<char>,
    collection: Seq<char>,
    token_id: Seq<char>,
    paid: nat,
)
    requires
        listed_consistently(pre),
    ensures
        purchase_step(pre, buyer, collection, token_id, paid) matches Ok((post, _))
            ==> listed_consistently(post),
{
}

/// Deposits and withdrawals of coins, and bids placed or taken back, touch
/// neither custody of items nor listings: a listed item stays listed as it
/// was.
pub proof fn lemma_coins_and_bids_keep_listing(
    pre: LedgerView,
    who: Seq<char>,
    collection: Seq<char>,
    token_id: Seq<char>,
    contract: Seq<char>,
    amount: nat,
)
    requires
        listed_consistently(pre),
    ensures
        deposit_coin_step(pre, who, contract, amount) matches Ok((post, _)) ==> listed_consistently(
            post,
        ),
        withdraw_coin_step(pre, who, contract, amount) matches Ok((post, _))
            ==> listed_consistently(post),
        place_bid_step(pre, who, collection, token_id, amount, contract) matches Ok((post, _))
            ==> listed_consistently(post),
        withdraw_bid_step(pre, who, collection, token_id) matches Ok((post, _))
            ==> listed_consistently(post),
        deposit_coin_step(pre, who, contract, amount) matches Ok((post, _)) ==> post.asks
            == pre.asks && post.slots == pre.slots && post.bids == pre.bids,
        withdraw_coin_step(pre, who, contract, amount) matches Ok((post, _)) ==> post.asks
            == pre.asks && post.slots == pre.slots && post.bids == pre.bids,
        place_bid_step(pre, who, collection, token_id, amount, contract) matches Ok((post, _))
            ==> post.asks == pre.asks && post.slots == pre.slots && post.coins == pre.coins,
        withdraw_bid_step(pre, who, collection, token_id) matches Ok((post, _)) ==> post.asks
            == pre.asks && post.slots == pre.slots && post.coins == pre.coins,
{
}

/// A transition of the escrow with its arguments.
pub enum Command {
    DepositCoin { owner: Seq<char>, contract: Seq<char>, amount: nat },
    WithdrawCoin { owner: Seq<char>, contract: Seq<char>, amount: nat },
    DepositItem {
        collection: Seq<char>,
        owner: Seq<char>,
        token_id: Seq<char>,
        cw20_contract: Seq<char>,
        amount: nat,
    },
    WithdrawItem { collection: Seq<char>, owner: Seq<char>, token_id: Seq<char> },
    Purchase { buyer: Seq<char>, collection: Seq<char>, token_id: Seq<char>, paid: nat },
    PlaceBid {
        bidder: Seq<char>,
        collection: Seq<char>,
        token_id: Seq<char>,
        offered: nat,
        cw20_contract: Seq<char>,
    },
    WithdrawBid { requester: Seq<char>, collection: Seq<char>, token_id: Seq<char> },
}

/// What a command makes of the books.
pub open spec fn command_step(pre: LedgerView, command: Command) -> Step {
    match command {
        Command::DepositCoin { owner, contract, amount } => deposit_coin_step(
            pre,
            owner,
            contract,
            amount,
        ),
        Command::WithdrawCoin { owner, contract, amount } => withdraw_coin_step(
            pre,
            owner,
            contract,
            amount,
        ),
        Command::DepositItem { collection, owner, token_id, cw20_contract, amount } => {
            deposit_item_step(pre, collection, owner, token_id, cw20_contract, amount)
        },
        Command::WithdrawItem { collection, owner, token_id } => withdraw_item_step(
            pre,
            collection,
            owner,
            token_id,
        ),
        Command::Purchase { buyer, collection, token_id, paid } => purchase_step(
            pre,
            buyer,
            collection,
            token_id,
            paid,
        ),
        Command::PlaceBid { bidder, collection, token_id, offered, cw20_contract } => {
            place_bid_step(pre, bidder, collection, token_id, offered, cw20_contract)
        },
        Command::WithdrawBid { requester, collection, token_id } => withdraw_bid_step(
            pre,
            requester,
            collection,
            token_id,
        ),
    }
}

/// The books after a sequence of commands, in order. A command that is
/// refused leaves them as they were.
pub open spec fn after_commands(pre: LedgerView, commands: Seq<Command>) -> LedgerView
    decreases commands.len(),
{
    if commands.len() == 0 {
        pre
    } else {
        let before = after_commands(pre, commands.drop_last());
        match command_step(before, commands.last()) {
            Ok((next, _)) => next,
            Err(_) => before,
        }
    }
}

/// The command deposits an item that is listed for another owner.
pub open spec fn takes_listing_over(pre: LedgerView, command: Command) -> bool {
    command matches Command::DepositItem { collection, owner, token_id, .. }
        && pre.asks.contains_key((collection, token_id)) && pre.asks[(collection, token_id)].owner
        != owner
}

/// No command of the sequence, at its turn, deposits an item that is listed
/// for another owner.
pub open spec fn no_listing_taken_over(pre: LedgerView, commands: Seq<Command>) -> bool
    decreases commands.len(),
{
    commands.len() == 0 || (no_listing_taken_over(pre, commands.drop_last())
        && !takes_listing_over(after_commands(pre, commands.drop_last()), commands.last()))
}

/// A command keeps custody and listing together, unless it deposits an
/// item that is listed for another owner.
pub proof fn lemma_command_keeps_listing(pre: LedgerView, command: Command)
    requires
        listed_consistently(pre),
        !takes_listing_over(pre, command),
    ensures
        command_step(pre, command) matches Ok((post, _)) ==> listed_consistently(post),
{
    match command {
        Command::DepositCoin { owner, contract, amount } => {
            lemma_coins_and_bids_keep_listing(pre, owner, owner, owner, contract, amount);
        },
        Command::WithdrawCoin { owner, contract, amount } => {
            lemma_coins_and_bids_keep_listing(pre, owner, owner, owner, contract, amount);
        },
        Command::DepositItem { collection, owner, token_id, cw20_contract, amount } => {
            lemma_deposit_item_keeps_listing(
                pre,
                collection,
                owner,
                token_id,
                cw20_contract,
                amount,
            );
        },
        Command::WithdrawItem { collection, owner, token_id } => {
            lemma_withdraw_item_keeps_listing(pre, collection, owner, token_id);
        },
        Command::Purchase { buyer, collection, token_id, paid } => {
            lemma_purchase_keeps_listing(pre, buyer, collection, token_id, paid);
        },
        Command::PlaceBid { bidder, collection, token_id, offered, cw20_contract } => {
            lemma_coins_and_bids_keep_listing(
                pre,
                bidder,
                collection,
                token_id,
                cw20_contract,
                offered,
            );
        },
        Command::WithdrawBid { requester, collection, token_id } => {
            lemma_coins_and_bids_keep_listing(pre, requester, collection, token_id, requester, 0);
        },
    }
}

/// Single ask, in every state. From books without entries, whatever is
/// commanded, custody and listing go together, as long as no item is
/// deposited while it is listed for another owner.
pub proof fn lemma_listing_holds_throughout(commands: Seq<Command>)
    requires
        no_listing_taken_over(empty_ledger(), commands),
    ensures
        listed_consistently(after_commands(empty_ledger(), commands)),
    decreases commands.len(),
{
    if commands.len() > 0 {
        lemma_listing_holds_throughout(commands.drop_last());
        lemma_command_keeps_listing(
            after_commands(empty_ledger(), commands.drop_last()),
            commands.last(),
        );
    }
}

/// The command that a message of `sender` asks for: none where a notice
/// carries no payload.
pub open spec fn command_of(sender: Seq<char>, msg: ExecuteMsg) -> Option<Command> {
    match msg {
        ExecuteMsg::Receive(notice) => match notice.msg {
            Some(Cw20HookMsg::Deposit { owner, amount }) => Some(
                Command::DepositCoin { owner: owner@, contract: sender, amount: amount as nat },
            ),
            Some(Cw20HookMsg::Purchase { cw721_contract, token_id }) => Some(
                Command::Purchase {
                    buyer: notice.sender@,
                    collection: cw721_contract@,
                    token_id: token_id@,
                    paid: notice.amount as nat,
                },
            ),
            Some(Cw20HookMsg::PlaceBid { cw721_contract, token_id }) => Some(
                Command::PlaceBid {
                    bidder: notice.sender@,
                    collection: cw721_contract@,
                    token_id: token_id@,
                    offered: notice.amount as nat,
                    cw20_contract: sender,
                },
            ),
            None => None,
        },
        ExecuteMsg::ReceiveNft(notice) => match notice.msg {
            Some(Cw721HookMsg::Deposit { owner, token_id, cw20_contract, amount }) => Some(
                Command::DepositItem {
                    collection: sender,
                    owner: owner@,
                    token_id: token_id@,
                    cw20_contract: cw20_contract@,
                    amount: amount as nat,
                },
            ),
            None => None,
        },
        ExecuteMsg::WithdrawNft { contract, token_id } => Some(
            Command::WithdrawItem { collection: contract@, owner: sender, token_id: token_id@ },
        ),
        ExecuteMsg::WithdrawBid { contract, token_id } => Some(
            Command::WithdrawBid { requester: sender, collection: contract@, token_id: token_id@ },
        ),
    }
}

/// Handling a message is carrying out the command it asks for, and refusing
/// it where it asks for none.
pub proof fn lemma_execute_runs_a_command(
    pre: LedgerView,
    sender: Seq<char>,
    msg: ExecuteMsg,
    post: LedgerView,
    r: Result<Response, ContractError>,
)
    requires
        executed(pre, sender, msg, post, r),
    ensures
        match command_of(sender, msg) {
            Some(command) => carried_out(command_step(pre, command), pre, post, r),
            None => r is Err && r->Err_0 == ContractError::InvalidHookMsg && post == pre,
        },
{
}

/// Handling a message keeps custody and listing together, unless the
/// message deposits an item that is listed for another owner.
pub proof fn lemma_execute_keeps_listing(
    pre: LedgerView,
    sender: Seq<char>,
    msg: ExecuteMsg,
    post: LedgerView,
    r: Result<Response, ContractError>,
)
    requires
        listed_consistently(pre),
        executed(pre, sender, msg, post, r),
        command_of(sender, msg) matches Some(command) ==> !takes_listing_over(pre, command),
    ensures
        listed_consistently(post),
{
    lemma_execute_runs_a_command(pre, sender, msg, post, r);
    if let Some(command) = command_of(sender, msg) {
        lemma_command_keeps_listing(pre, command);
    }
}

/// Books without entries have keys that fit.
pub proof fn lemma_empty_keys_fit()
    ensures
        keys_fit(empty_ledger()),
{
}

/// Every command keeps the keys fitting.
pub proof fn lemma_command_keeps_keys_fit(pre: LedgerView, command: Command)
    requires
        keys_fit(pre),
    ensures
        command_step(pre, command) matches Ok((post, _)) ==> keys_fit(post),
{
}

/// From books without entries, whatever is commanded, the keys fit.
pub proof fn lemma_keys_fit_throughout(commands: Seq<Command>)
    ensures
        keys_fit(after_commands(empty_ledger(), commands)),
    decreases commands.len(),
{
    if commands.len() > 0 {
        lemma_keys_fit_throughout(commands.drop_last());
        lemma_command_keeps_keys_fit(
            after_commands(empty_ledger(), commands.drop_last()),
            commands.last(),
        );
    }
}

/// Handling a message keeps the keys fitting.
pub proof fn lemma_execute_keeps_keys_fit(
    pre: LedgerView,
    sender: Seq<char>,
    msg: ExecuteMsg,
    post: LedgerView,
    r: Result<Response, ContractError>,
)
    requires
        keys_fit(pre),
        executed(pre, sender, msg, post, r),
    ensures
        keys_fit(post),
{
    lemma_execute_runs_a_command(pre, sender, msg, post, r);
    if let Some(command) = command_of(sender, msg) {
        lemma_command_keeps_keys_fit(pre, command);
    }
}

/// A first deposit opens the record with count 1 and the amount deposited.
pub proof fn lemma_first_deposit(
    pre: LedgerView,
    owner: Seq<char>,
    contract: Seq<char>,
    amount: nat,
)
    requires
        key_fits(owner),
        !pre.coins.contains_key((owner, contract)),
    ensures
        deposit_coin_step(pre, owner, contract, amount) == Ok::<_, ContractError>(
            (
                LedgerView {
                    coins: pre.coins.insert(
                        (owner, contract),
                        CoinDepositView { count: 1, owner, contract, amount },
                    ),
                    ..pre
                },
                quiet(Action::Cw20Deposit),
            ),
        ),
{
}

/// A later deposit adds to the balance and counts up, where both stay in
/// range; where one does not, it is refused as an overflow.
pub proof fn lemma_top_up(pre: LedgerView, owner: Seq<char>, contract: Seq<char>, amount: nat)
    requires
        keys_fit(pre),
        pre.coins.contains_key((owner, contract)),
    ensures
        ({
            let held = pre.coins[(owner, contract)];
            if held.amount + amount <= u128::MAX && held.count + 1 <= i32::MAX {
                deposit_coin_step(pre, owner, contract, amount) == Ok::<_, ContractError>(
                    (
                        LedgerView {
                            coins: pre.coins.insert(
                                (owner, contract),
                                CoinDepositView {
                                    count: held.count + 1,
                                    amount: held.amount + amount,
                                    ..held
                                },
                            ),
                            ..pre
                        },
                        quiet(Action::Cw20Deposit),
                    ),
                )
            } else {
                deposit_coin_step(pre, owner, contract, amount) == Err::<
                    (LedgerView, ResponseView),
                    _,
                >(ContractError::ArithmeticOverflow)
            }
        }),
{
}

/// A withdrawal within the balance, from a record that was topped up more
/// often than drawn on, takes the amount out, counts down, keeps the record
/// even at zero, and asks the token contract to credit the owner.
pub proof fn lemma_withdrawal_within_balance(
    pre: LedgerView,
    owner: Seq<char>,
    contract: Seq<char>,
    amount: nat,
)
    requires
        keys_fit(pre),
        pre.coins.contains_key((owner, contract)),
        amount <= pre.coins[(owner, contract)].amount,
        pre.coins[(owner, contract)].count >= 1,
    ensures
        ({
            let held = pre.coins[(owner, contract)];
            withdraw_coin_step(pre, owner, contract, amount) == Ok::<_, ContractError>(
                (
                    LedgerView {
                        coins: pre.coins.insert(
                            (owner, contract),
                            CoinDepositView {
                                count: held.count - 1,
                                amount: (held.amount - amount) as nat,
                                ..held
                            },
                        ),
                        ..pre
                    },
                    asking(
                        Action::Cw20Withdraw,
                        InstructionView::TransferCoin { contract, recipient: owner, amount },
                    ),
                ),
            )
        }),
{
}

/// A withdrawal is refused as insufficient where there is no record or the
/// record holds less, and as an underflow where the record was drawn on as
/// often as it was topped up.
pub proof fn lemma_withdrawal_refused(
    pre: LedgerView,
    owner: Seq<char>,
    contract: Seq<char>,
    amount: nat,
)
    requires
        keys_fit(pre),
        key_fits(owner),
    ensures
        !pre.coins.contains_key((owner, contract)) || amount > pre.coins[(owner, contract)].amount
            ==> withdraw_coin_step(pre, owner, contract, amount) == Err::<
            (LedgerView, ResponseView),
            _,
        >(ContractError::InsufficientDeposit),
        pre.coins.contains_key((owner, contract)) && amount <= pre.coins[(
            owner,
            contract,
        )].amount && pre.coins[(owner, contract)].count < 1 ==> withdraw_coin_step(
            pre,
            owner,
            contract,
            amount,
        ) == Err::<(LedgerView, ResponseView), _>(ContractError::ArithmeticUnderflow),
{
}

/// Depositing an item that is not in custody for this owner creates the
/// custody record and the listing together.
pub proof fn lemma_item_deposit_lists(
    pre: LedgerView,
    collection: Seq<char>,
    owner: Seq<char>,
    token_id: Seq<char>,
    cw20_contract: Seq<char>,
    amount: nat,
)
    requires
        key_fits(collection),
        key_fits(owner),
        !pre.slots.contains((collection, owner, token_id)),
    ensures
        deposit_item_step(pre, collection, owner, token_id, cw20_contract, amount) matches Ok(
            (post, answer),
        ) && {
            let key = (collection, owner, token_id);
            &&& answer == quiet(Action::Cw721Deposit)
            &&& post.slots.contains(key)
            &&& post.items.contains_key(key)
            &&& post.items[key] == (ItemDepositView { owner, contract: collection, token_id })
            &&& post.asks.contains_key((collection, token_id))
            &&& post.asks[(collection, token_id)] == (OfferView {
                owner,
                cw721_contract: collection,
                token_id,
                cw20_contract,
                amount,
            })
            &&& post.coins == pre.coins
            &&& post.bids == pre.bids
        },
{
}

/// Returning an item that is in custody for `owner` clears its custody
/// record and its listing, and asks the collection to hand it back.
pub proof fn lemma_withdraw_item_clears(
    pre: LedgerView,
    collection: Seq<char>,
    owner: Seq<char>,
    token_id: Seq<char>,
)
    requires
        keys_fit(pre),
        pre.slots.contains((collection, owner, token_id)),
    ensures
        withdraw_item_step(pre, collection, owner, token_id) matches Ok((post, answer)) && {
            &&& answer == asking(
                Action::Cw721Withdraw,
                InstructionView::TransferItem { contract: collection, recipient: owner, token_id },
            )
            &&& !post.slots.contains((collection, owner, token_id))
            &&& !post.items.contains_key((collection, owner, token_id))
            &&& !post.asks.contains_key((collection, token_id))
            &&& listed_consistently(pre) ==> !in_custody(post, collection, token_id)
        },
{
}

/// Bid monotonicity. A bid that is accepted is recorded with its amount,
/// which exceeds that of the bid it replaces and stays below the asking
/// price of a listed item.
pub proof fn lemma_bid_rises(
    pre: LedgerView,
    bidder: Seq<char>,
    collection: Seq<char>,
    token_id: Seq<char>,
    offered: nat,
    cw20_contract: Seq<char>,
)
    ensures
        place_bid_step(pre, bidder, collection, token_id, offered, cw20_contract) matches Ok(
            (post, _),
        ) ==> {
            let key = (collection, token_id);
            &&& post.bids.contains_key(key)
            &&& post.bids[key].amount == offered
            &&& post.bids[key].bidder == bidder
            &&& pre.bids.contains_key(key) ==> post.bids[key].amount > pre.bids[key].amount
            &&& pre.asks.contains_key(key) ==> post.bids[key].amount < pre.asks[key].amount
        },
{
}

/// A bid below the asking price of a listed item and above the standing
/// bid, if there is one, is accepted and recorded as it was made.
pub proof fn lemma_bid_accepted(
    pre: LedgerView,
    bidder: Seq<char>,
    collection: Seq<char>,
    token_id: Seq<char>,
    offered: nat,
    cw20_contract: Seq<char>,
)
    requires
        key_fits(collection),
        pre.asks.contains_key((collection, token_id)) ==> offered < pre.asks[(
            collection,
            token_id,
        )].amount,
        pre.bids.contains_key((collection, token_id)) ==> offered > pre.bids[(
            collection,
            token_id,
        )].amount,
    ensures
        place_bid_step(pre, bidder, collection, token_id, offered, cw20_contract) == Ok::<
            _,
            ContractError,
        >(
            (
                LedgerView {
                    bids: pre.bids.insert(
                        (collection, token_id),
                        BidView {
                            bidder,
                            cw721_contract: collection,
                            token_id,
                            cw20_contract,
                            amount: offered,
                        },
                    ),
                    ..pre
                },
                quiet(Action::PlaceBid),
            ),
        ),
{
}

/// A purchase at the asking price is carried out and clears the listing:
/// neither the listing, nor the custody record of the seller, nor a bid on
/// the item remains, and where custody and listing went together the item
/// is in custody for nobody. The collection is asked to hand the item to
/// the buyer, and nothing else is asked for.
pub proof fn lemma_purchase_clears(
    pre: LedgerView,
    buyer: Seq<char>,
    collection: Seq<char>,
    token_id: Seq<char>,
    paid: nat,
)
    requires
        keys_fit(pre),
        pre.asks.contains_key((collection, token_id)),
        paid == pre.asks[(collection, token_id)].amount,
    ensures
        purchase_step(pre, buyer, collection, token_id, paid) matches Ok((post, answer)) && {
            let seller = pre.asks[(collection, token_id)].owner;
            &&& answer == asking(
                Action::Purchase,
                InstructionView::TransferItem { contract: collection, recipient: buyer, token_id },
            )
            &&& !post.asks.contains_key((collection, token_id))
            &&& !post.slots.contains((collection, seller, token_id))
            &&& !post.items.contains_key((collection, seller, token_id))
            &&& !post.bids.contains_key((collection, token_id))
            &&& post.coins == pre.coins
            &&& listed_consistently(pre) ==> !in_custody(post, collection, token_id)
        },
{
}

/// A purchase is refused where the item is not listed, and where the
/// amount is not the asking price.
pub proof fn lemma_purchase_refused(
    pre: LedgerView,
    buyer: Seq<char>,
    collection: Seq<char>,
    token_id: Seq<char>,
    paid: nat,
)
    requires
        keys_fit(pre),
        key_fits(collection),
    ensures
        !pre.asks.contains_key((collection, token_id)) ==> purchase_step(
            pre,
            buyer,
            collection,
            token_id,
            paid,
        ) == Err::<(LedgerView, ResponseView), _>(ContractError::NoSuchAsk),
        pre.asks.contains_key((collection, token_id)) && paid != pre.asks[(
            collection,
            token_id,
        )].amount ==> purchase_step(pre, buyer, collection, token_id, paid) == Err::<
            (LedgerView, ResponseView),
            _,
        >(ContractError::InvalidAmount),
{
}

/// The bidder takes the bid back: it is cleared, and its token contract is
/// asked to return the amount to the bidder.
pub proof fn lemma_bidder_withdraws(
    pre: LedgerView,
    collection: Seq<char>,
    token_id: Seq<char>,
)
    requires
        keys_fit(pre),
        pre.bids.contains_key((collection, token_id)),
    ensures
        ({
            let bid = pre.bids[(collection, token_id)];
            withdraw_bid_step(pre, bid.bidder, collection, token_id) == Ok::<_, ContractError>(
                (
                    LedgerView { bids: pre.bids.remove((collection, token_id)), ..pre },
                    asking(
                        Action::WithdrawBid,
                        InstructionView::TransferCoin {
                            contract: bid.cw20_contract,
                            recipient: bid.bidder,
                            amount: bid.amount,
                        },
                    ),
                ),
            )
        }),
{
}

/// Authorization. Whoever asks to take back a bid that is not theirs is
/// refused as unauthorized, and the books stay as they were.
pub proof fn lemma_only_bidder_withdraws(
    pre: LedgerView,
    requester: Seq<char>,
    collection: Seq<char>,
    token_id: Seq<char>,
    post: LedgerView,
    r: Result<Response, ContractError>,
)
    requires
        keys_fit(pre),
        pre.bids.contains_key((collection, token_id)),
        pre.bids[(collection, token_id)].bidder != requester,
        carried_out(withdraw_bid_step(pre, requester, collection, token_id), pre, post, r),
    ensures
        r is Err && r->Err_0 == ContractError::Unauthorized,
        post == pre,
        post.bids[(collection, token_id)] == pre.bids[(collection, token_id)],
{
}

/// Every refusal leaves the books as they were.
pub proof fn lemma_refusal_changes_nothing(
    step: Step,
    pre: LedgerView,
    post: LedgerView,
    r: Result<Response, ContractError>,
)
    requires
        carried_out(step, pre, post, r),
        r is Err,
    ensures
        post == pre,
{
}

/// No text comes before itself.
pub proof fn lemma_text_lt_irreflexive(a: Seq<char>)
    ensures
        !text_lt(a, a),
    decreases a.len(),
{
    if a.len() > 0 {
        lemma_text_lt_irreflexive(a.drop_first());
    }
}

/// Of two texts at most one comes before the other.
pub proof fn lemma_text_lt_asymmetric(a: Seq<char>, b: Seq<char>)
    ensures
        !(text_lt(a, b) && text_lt(b, a)),
    decreases a.len(),
{
    if a.len() > 0 && b.len() > 0 && a[0] == b[0] {
        lemma_text_lt_asymmetric(a.drop_first(), b.drop_first());
    }
}

/// What comes before a text comes before all that this text comes before.
pub proof fn lemma_text_lt_transitive(a: Seq<char>, b: Seq<char>, c: Seq<char>)
    requires
        text_lt(a, b),
        text_lt(b, c),
    ensures
        text_lt(a, c),
    decreases a.len(),
{
    if a.len() > 0 && a[0] == b[0] && b[0] == c[0] {
        lemma_text_lt_transitive(a.drop_first(), b.drop_first(), c.drop_first());
    }
}

/// Of two different texts one comes before the other.
pub proof fn lemma_text_lt_total(a: Seq<char>, b: Seq<char>)
    ensures
        a == b || text_lt(a, b) || text_lt(b, a),
    decreases a.len(),
{
    if a.len() == 0 || b.len() == 0 {
        if a.len() == 0 && b.len() == 0 {
            assert(a =~= b);
        }
    } else if a[0] == b[0] {
        lemma_text_lt_total(a.drop_first(), b.drop_first());
        if a.drop_first() == b.drop_first() {
            assert(a =~= seq![a[0]] + a.drop_first());
            assert(b =~= seq![b[0]] + b.drop_first());
        }
    } else {
        assert((a[0] as u32) != (b[0] as u32)) by {
            vstd::utf8::char_u32_cast(a[0], a[0] as u32);
            vstd::utf8::char_u32_cast(b[0], b[0] as u32);
        }
    }
}

/// What is left of a listing without its first row lists what is left of
/// the entries without that row's key.
proof fn lemma_listing_rest<V>(rows: Seq<(Seq<char>, V)>, entries: Map<Seq<char>, V>)
    requires
        is_listing(rows, entries),
        rows.len() > 0,
    ensures
        is_listing(rows.drop_first(), entries.remove(rows[0].0)),
{
    let rest = rows.drop_first();
    let left = entries.remove(rows[0].0);
    assert forall|i: int| 0 <= i < rest.len() implies left.contains_key(#[trigger] rest[i].0)
        && left[rest[i].0] == rest[i].1 by {
        assert(rest[i] == rows[i + 1]);
        assert(text_lt(rows[0].0, rows[i + 1].0));
        lemma_text_lt_irreflexive(rows[0].0);
    }
    assert forall|i: int, j: int| 0 <= i < j < rest.len() implies text_lt(
        #[trigger] rest[i].0,
        #[trigger] rest[j].0,
    ) by {
        assert(rest[i] == rows[i + 1]);
        assert(rest[j] == rows[j + 1]);
    }
    assert forall|k: Seq<char>| #[trigger] left.contains_key(k) implies row_keys(rest).contains(
        k,
    ) by {
        assert(entries.contains_key(k));
        let j = choose|j: int| 0 <= j < row_keys(rows).len() && row_keys(rows)[j] == k;
        assert(rows[j].0 == k);
        assert(j != 0);
        assert(row_keys(rest)[j - 1] == rest[j - 1].0);
        assert(rest[j - 1] == rows[j]);
    }
}

/// Two listings of the same entries begin with the same row.
proof fn lemma_listing_first<V>(
    rows: Seq<(Seq<char>, V)>,
    others: Seq<(Seq<char>, V)>,
    entries: Map<Seq<char>, V>,
)
    requires
        is_listing(rows, entries),
        is_listing(others, entries),
        rows.len() > 0,
    ensures
        others.len() > 0,
        others[0] == rows[0],
{
    assert(entries.contains_key(rows[0].0));
    let j = choose|j: int| 0 <= j < row_keys(others).len() && row_keys(others)[j] == rows[0].0;
    assert(others[j].0 == rows[0].0);
    assert(entries.contains_key(others[0].0));
    let i = choose|i: int| 0 <= i < row_keys(rows).len() && row_keys(rows)[i] == others[0].0;
    assert(rows[i].0 == others[0].0);
    if j != 0 {
        assert(text_lt(others[0].0, others[j].0));
        if i != 0 {
            assert(text_lt(rows[0].0, rows[i].0));
            lemma_text_lt_asymmetric(rows[0].0, others[0].0);
        } else {
            lemma_text_lt_irreflexive(rows[0].0);
        }
    }
    assert(others[0].0 == rows[0].0);
    assert(entries[rows[0].0] == rows[0].1);
    assert(entries[others[0].0] == others[0].1);
}

/// A listing is determined by what it lists: entries have one listing by
/// ascending key and no other.
pub proof fn lemma_listing_unique<V>(
    rows: Seq<(Seq<char>, V)>,
    others: Seq<(Seq<char>, V)>,
    entries: Map<Seq<char>, V>,
)
    requires
        is_listing(rows, entries),
        is_listing(others, entries),
    ensures
        rows == others,
    decreases rows.len(),
{
    if rows.len() == 0 {
        if others.len() > 0 {
            lemma_listing_first(others, rows, entries);
        }
        assert(rows =~= others);
    } else {
        lemma_listing_first(rows, others, entries);
        lemma_listing_rest(rows, entries);
        lemma_listing_rest(others, entries);
        lemma_listing_unique(rows.drop_first(), others.drop_first(), entries.remove(rows[0].0));
        assert(rows =~= seq![rows[0]] + rows.drop_first());
        assert(others =~= seq![others[0]] + others.drop_first());
    }
}

/// A listing holds each entry once: it is as long as there are entries.
pub proof fn lemma_listing_counts<V>(rows: Seq<(Seq<char>, V)>, entries: Map<Seq<char>, V>)
    requires
        is_listing(rows, entries),
    ensures
        entries.dom().finite(),
        entries.dom().len() == rows.len(),
    decreases rows.len(),
{
    if rows.len() == 0 {
        assert(entries.dom() =~= Set::empty());
    } else {
        lemma_listing_rest(rows, entries);
        lemma_listing_counts(rows.drop_first(), entries.remove(rows[0].0));
        assert(entries.contains_key(rows[0].0));
        assert(entries.dom() =~= entries.remove(rows[0].0).dom().insert(rows[0].0));
    }
}

} // verus!
