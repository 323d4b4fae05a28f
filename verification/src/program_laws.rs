//! What holds of the program escrow over any sequence of operations.

use crate::fee::lemma_fee_within_amount;
use crate::program_escrow::{
    batch_records_of_first, batch_total, batch_total_of_first, batch_transfers_of_first,
    lemma_batch_total_grows, net_transfer, payout_transfers, FeeConfig, PayoutRecord,
    ProgramError, ProgramLedger, ProgramOutcome,
};
use crate::settlement::{lemma_one_and_fee_move_both, lemma_total_moved_adds, total_moved};
use soroban_sdk::Address;
use vstd::prelude::*;

verus! {

/// One call of the program escrow, with its arguments and the time of the
/// call where it has one.
pub enum Operation {
    InitProgram {
        program_id: soroban_sdk::String,
        authorized_payout_key: Address,
        token_address: Address,
    },
    LockProgramFunds { amount: i128 },
    BatchPayout { authorized: bool, recipients: Seq<Address>, amounts: Seq<i128>, now: u64 },
    SinglePayout { authorized: bool, recipient: Address, amount: i128, now: u64 },
    UpdateFeeConfig {
        authorized: bool,
        lock_fee_rate: Option<i128>,
        payout_fee_rate: Option<i128>,
        fee_recipient: Option<Address>,
        fee_enabled: Option<bool>,
    },
}

/// What `operation` does to `ledger`.
pub open spec fn apply(ledger: ProgramLedger, operation: Operation) -> Result<
    ProgramOutcome,
    ProgramError,
> {
    match operation {
        Operation::InitProgram { program_id, authorized_payout_key, token_address } => {
            ledger.init_program(program_id, authorized_payout_key, token_address)
        },
        Operation::LockProgramFunds { amount } => ledger.lock_program_funds(amount),
        Operation::BatchPayout { authorized, recipients, amounts, now } => {
            ledger.batch_payout(authorized, recipients, amounts, now)
        },
        Operation::SinglePayout { authorized, recipient, amount, now } => {
            ledger.single_payout(authorized, recipient, amount, now)
        },
        Operation::UpdateFeeConfig {
            authorized,
            lock_fee_rate,
            payout_fee_rate,
            fee_recipient,
            fee_enabled,
        } => ledger.update_fee_config(
            authorized,
            lock_fee_rate,
            payout_fee_rate,
            fee_recipient,
            fee_enabled,
        ),
    }
}

/// The ledger after `operation`: changed where it succeeds, as before where
/// it is refused.
pub open spec fn after(ledger: ProgramLedger, operation: Operation) -> ProgramLedger {
    match apply(ledger, operation) {
        Ok(outcome) => outcome.ledger,
        Err(_) => ledger,
    }
}

/// The ledger after `operations`, one after the other.
pub open spec fn after_all(ledger: ProgramLedger, operations: Seq<Operation>) -> ProgramLedger
    decreases operations.len(),
{
    if operations.len() == 0 {
        ledger
    } else {
        after(after_all(ledger, operations.drop_last()), operations.last())
    }
}

/// Whether `later` continues the program of `earlier`: the same program,
/// payout key and asset, a total that has not fallen, and a history that
/// begins with the earlier one.
pub open spec fn continues(earlier: ProgramLedger, later: ProgramLedger) -> bool {
    earlier.program is Some ==> {
        let before = earlier.program->Some_0;
        &&& later.program is Some
        &&& later.program->Some_0.program_id == before.program_id
        &&& later.program->Some_0.authorized_payout_key == before.authorized_payout_key
        &&& later.program->Some_0.token_address == before.token_address
        &&& later.program->Some_0.total_funds >= before.total_funds
        &&& before.payout_history.is_prefix_of(later.program->Some_0.payout_history)
    }
}

/// Every operation keeps the ledger's invariant: the remaining balance
/// never falls below zero and stored rates stay within bounds.
pub proof fn lemma_operation_keeps_invariant(ledger: ProgramLedger, operation: Operation)
    requires
        ledger.wf(),
    ensures
        after(ledger, operation).wf(),
{
    match operation {
        Operation::BatchPayout { authorized, recipients, amounts, now } => {
            if batch_total(amounts) is Ok {
                lemma_batch_total_grows(amounts, 0, amounts.len());
            }
        },
        Operation::LockProgramFunds { amount } => {
            let config = ledger.fee_config_in_force();
            lemma_fee_within_amount(amount as int, config.lock_fee_rate as int);
        },
        _ => {},
    }
}

/// Every operation continues the program: it stays recorded, its total
/// never falls, and its history only grows at the end.
pub proof fn lemma_operation_continues(ledger: ProgramLedger, operation: Operation)
    requires
        ledger.wf(),
    ensures
        continues(ledger, after(ledger, operation)),
{
    match operation {
        Operation::LockProgramFunds { amount } => {
            let config = ledger.fee_config_in_force();
            lemma_fee_within_amount(amount as int, config.lock_fee_rate as int);
        },
        _ => {},
    }
}

/// Over any sequence of operations the invariant holds and the program is
/// continued.
pub proof fn lemma_operations_continue(ledger: ProgramLedger, operations: Seq<Operation>)
    requires
        ledger.wf(),
    ensures
        after_all(ledger, operations).wf(),
        continues(ledger, after_all(ledger, operations)),
    decreases operations.len(),
{
    if operations.len() > 0 {
        let before = after_all(ledger, operations.drop_last());
        lemma_operations_continue(ledger, operations.drop_last());
        lemma_operation_keeps_invariant(before, operations.last());
        lemma_operation_continues(before, operations.last());
    }
}

/// A program is recorded only once: on a ledger that has one, and after any
/// further operations, recording one is refused with `AlreadyInitialized`;
/// on a ledger that has none it succeeds.
pub proof fn lemma_init_only_once(
    ledger: ProgramLedger,
    operations: Seq<Operation>,
    program_id: soroban_sdk::String,
    authorized_payout_key: Address,
    token_address: Address,
)
    requires
        ledger.wf(),
    ensures
        ledger.program is Some ==> after_all(ledger, operations).init_program(
            program_id,
            authorized_payout_key,
            token_address,
        ) == Err::<ProgramOutcome, ProgramError>(ProgramError::AlreadyInitialized),
        ledger.program is Some ==> after(
            after_all(ledger, operations),
            Operation::InitProgram { program_id, authorized_payout_key, token_address },
        ) == after_all(ledger, operations),
        ledger.program is None ==> ledger.init_program(
            program_id,
            authorized_payout_key,
            token_address,
        ) is Ok,
{
    lemma_operations_continue(ledger, operations);
}

/// An operation is refused with `Unauthorized` only where the payout key
/// has not authorized it.
pub proof fn lemma_unauthorized_only_without_key(ledger: ProgramLedger, operation: Operation)
    requires
        apply(ledger, operation) is Err,
        apply(ledger, operation)->Err_0 == ProgramError::Unauthorized,
    ensures
        match operation {
            Operation::BatchPayout { authorized, .. } => !authorized,
            Operation::SinglePayout { authorized, .. } => !authorized,
            Operation::UpdateFeeConfig { authorized, .. } => !authorized,
            _ => false,
        },
{
    match operation {
        Operation::BatchPayout { authorized, recipients, amounts, now } => {
            if authorized && batch_total(amounts) is Err {
                lemma_batch_refusal_is_of_amounts(amounts, amounts.len());
            }
        },
        _ => {},
    }
}

/// A total of amounts is refused only with `InvalidAmount` or `Overflow`.
pub proof fn lemma_batch_refusal_is_of_amounts(amounts: Seq<i128>, count: nat)
    requires
        batch_total_of_first(amounts, count) is Err,
    ensures
        batch_total_of_first(amounts, count)->Err_0 == ProgramError::InvalidAmount
            || batch_total_of_first(amounts, count)->Err_0 == ProgramError::Overflow,
    decreases count,
{
    if count > 0 && batch_total_of_first(amounts, (count - 1) as nat) is Err {
        lemma_batch_refusal_is_of_amounts(amounts, (count - 1) as nat);
    }
}

/// One payout moves exactly its amount: the net to the recipient and the
/// fee to the fee recipient add up to it.
pub proof fn lemma_payout_moves_amount(
    from: Address,
    config: FeeConfig,
    recipient: Address,
    amount: i128,
)
    requires
        config.valid(),
        amount > 0,
    ensures
        total_moved(payout_transfers(from, config, recipient, amount)) == amount,
        payout_transfers(from, config, recipient, amount)[0] == net_transfer(
            from,
            config,
            recipient,
            amount,
        ),
        config.payout_net(amount) == amount - config.payout_fee(amount),
        0 <= config.payout_fee(amount) <= amount,
{
    lemma_fee_within_amount(amount as int, config.payout_fee_rate as int);
    lemma_one_and_fee_move_both(
        net_transfer(from, config, recipient, amount),
        from,
        config.fee_recipient,
        config.payout_fee(amount),
    );
}

/// The transfers of a batch move exactly the batch's total, and among them
/// each recipient is sent its amount net of the payout fee.
pub proof fn lemma_batch_moves_total(
    from: Address,
    config: FeeConfig,
    recipients: Seq<Address>,
    amounts: Seq<i128>,
    count: nat,
)
    requires
        config.valid(),
        batch_total_of_first(amounts, count) is Ok,
    ensures
        total_moved(batch_transfers_of_first(from, config, recipients, amounts, count))
            == batch_total_of_first(amounts, count)->Ok_0,
        forall|i: int|
            0 <= i < count ==> batch_transfers_of_first(
                from,
                config,
                recipients,
                amounts,
                count,
            ).contains(
                #[trigger] net_transfer(from, config, recipients[i], amounts[i]),
            ),
    decreases count,
{
    if count > 0 {
        let earlier = batch_transfers_of_first(
            from,
            config,
            recipients,
            amounts,
            (count - 1) as nat,
        );
        let last = payout_transfers(from, config, recipients[count - 1], amounts[count - 1]);
        lemma_batch_total_grows(amounts, (count - 1) as nat, count);
        lemma_batch_moves_total(from, config, recipients, amounts, (count - 1) as nat);
        lemma_payout_moves_amount(from, config, recipients[count - 1], amounts[count - 1]);
        lemma_total_moved_adds(earlier, last);
        assert forall|i: int| 0 <= i < count implies (earlier + last).contains(
            #[trigger] net_transfer(from, config, recipients[i], amounts[i]),
        ) by {
            let wanted = net_transfer(from, config, recipients[i], amounts[i]);
            if i < count - 1 {
                let at = choose|at: int| 0 <= at < earlier.len() && earlier[at] == wanted;
                assert((earlier + last)[at] == wanted);
            } else {
                assert((earlier + last)[earlier.len() as int] == wanted);
            }
        }
    }
}

/// The first `count` amounts, added up as integers.
pub open spec fn sum_of_first(amounts: Seq<i128>, count: nat) -> int
    decreases count,
{
    if count == 0 {
        0
    } else {
        sum_of_first(amounts, (count - 1) as nat) + amounts[count - 1]
    }
}

/// Whether each of the first `count` amounts is positive.
pub open spec fn all_positive(amounts: Seq<i128>, count: nat) -> bool {
    forall|i: int| 0 <= i < count ==> #[trigger] amounts[i] > 0
}

/// The first `count` amounts have a total exactly where each is positive
/// and their sum fits in `i128`, and the total is then their sum.
pub proof fn lemma_batch_total_is_sum(amounts: Seq<i128>, count: nat)
    ensures
        batch_total_of_first(amounts, count) is Ok <==> all_positive(amounts, count)
            && sum_of_first(amounts, count) <= i128::MAX,
        batch_total_of_first(amounts, count) is Ok ==> batch_total_of_first(amounts, count)->Ok_0
            == sum_of_first(amounts, count),
        all_positive(amounts, count) ==> sum_of_first(amounts, count) >= 0,
    decreases count,
{
    if count > 0 {
        lemma_batch_total_is_sum(amounts, (count - 1) as nat);
        if batch_total_of_first(amounts, count) is Ok {
            lemma_batch_total_grows(amounts, 0, count);
            assert forall|i: int| 0 <= i < count implies #[trigger] amounts[i] > 0 by {
                lemma_batch_total_grows(amounts, i as nat, count);
            }
        }
        if all_positive(amounts, count) {
            assert(all_positive(amounts, (count - 1) as nat));
            assert(amounts[count - 1] > 0);
        }
    }
}

/// A batch is paid in full or not at all. Where the amounts add up to more
/// than the remaining balance the batch is refused and the ledger stays as
/// it is. Where the call is authorized, there is one positive amount for
/// each of one or more recipients, and the amounts add up to no more than
/// the balance, it succeeds: the balance falls by the sum, the transfers
/// move exactly the sum out of the ledger, each recipient is sent its amount
/// net of the payout fee, and the history grows by one record per
/// recipient, in order.
pub proof fn lemma_batch_all_or_nothing(
    ledger: ProgramLedger,
    authorized: bool,
    recipients: Seq<Address>,
    amounts: Seq<i128>,
    now: u64,
)
    requires
        ledger.wf(),
        ledger.program is Some,
    ensures
        sum_of_first(amounts, amounts.len()) > ledger.program->Some_0.remaining_balance
            ==> ledger.batch_payout(authorized, recipients, amounts, now) is Err && after(
            ledger,
            Operation::BatchPayout { authorized, recipients, amounts, now },
        ) == ledger,
        authorized && recipients.len() == amounts.len() && amounts.len() > 0 && all_positive(
            amounts,
            amounts.len(),
        ) && sum_of_first(amounts, amounts.len()) <= ledger.program->Some_0.remaining_balance ==> {
            let paid = ledger.batch_payout(authorized, recipients, amounts, now);
            let config = ledger.fee_config_in_force();
            let before = ledger.program->Some_0;
            &&& paid is Ok
            &&& paid->Ok_0.ledger.program->Some_0.remaining_balance == before.remaining_balance
                - sum_of_first(amounts, amounts.len())
            &&& total_moved(paid->Ok_0.transfers) == sum_of_first(amounts, amounts.len())
            &&& forall|i: int|
                0 <= i < amounts.len() ==> paid->Ok_0.transfers.contains(
                    #[trigger] net_transfer(ledger.address, config, recipients[i], amounts[i]),
                )
            &&& paid->Ok_0.ledger.program->Some_0.payout_history.len()
                == before.payout_history.len() + amounts.len()
            &&& forall|i: int|
                0 <= i < amounts.len() ==> #[trigger] paid->Ok_0.ledger.program->Some_0
                    .payout_history[before.payout_history.len() + i] == (PayoutRecord {
                    recipient: recipients[i],
                    amount: config.payout_net(amounts[i]),
                    timestamp: now,
                })
        },
{
    let config = ledger.fee_config_in_force();
    lemma_batch_total_is_sum(amounts, amounts.len());
    if batch_total(amounts) is Ok {
        lemma_batch_total_grows(amounts, 0, amounts.len());
        lemma_batch_moves_total(ledger.address, config, recipients, amounts, amounts.len());
    }
}

/// A single payout does to the ledger and asks of the gateway what a batch
/// of that one payout does.
pub proof fn lemma_single_payout_is_batch_of_one(
    ledger: ProgramLedger,
    authorized: bool,
    recipient: Address,
    amount: i128,
    now: u64,
)
    ensures
        ledger.single_payout(authorized, recipient, amount, now) is Ok <==> ledger.batch_payout(
            authorized,
            seq![recipient],
            seq![amount],
            now,
        ) is Ok,
        ledger.single_payout(authorized, recipient, amount, now) is Ok ==> {
            let single = ledger.single_payout(authorized, recipient, amount, now)->Ok_0;
            let batch = ledger.batch_payout(authorized, seq![recipient], seq![amount], now)->Ok_0;
            single.ledger == batch.ledger && single.transfers == batch.transfers
        },
        ledger.single_payout(authorized, recipient, amount, now) is Err ==> ledger.single_payout(
            authorized,
            recipient,
            amount,
            now,
        )->Err_0 == ledger.batch_payout(authorized, seq![recipient], seq![amount], now)->Err_0,
{
    let recipients = seq![recipient];
    let amounts = seq![amount];
    reveal_with_fuel(batch_total_of_first, 2);
    reveal_with_fuel(batch_transfers_of_first, 2);
    if ledger.single_payout(authorized, recipient, amount, now) is Ok {
        let config = ledger.fee_config_in_force();
        let single = ledger.single_payout(authorized, recipient, amount, now)->Ok_0;
        let batch = ledger.batch_payout(authorized, recipients, amounts, now)->Ok_0;
        assert(batch_records_of_first(config, recipients, amounts, now, 1) =~= seq![
            PayoutRecord { recipient, amount: config.payout_net(amount), timestamp: now },
        ]);
        assert(single.ledger.program->Some_0.payout_history
            =~= batch.ledger.program->Some_0.payout_history);
        assert(single.transfers =~= batch.transfers);
    }
}

} // verus!
