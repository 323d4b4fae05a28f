//! What holds of the bounty escrow over any sequence of operations.

use crate::bounty_escrow::{BountyLedger, Error, EscrowStatus, Outcome};
use crate::fee::{charged_fee, lemma_fee_within_amount};
use crate::settlement::{fee_transfers, lemma_one_and_fee_move_both, total_moved, Transfer};
use soroban_sdk::Address;
use vstd::prelude::*;

verus! {

/// One call of the bounty escrow, with its arguments and the time of the call.
pub enum Operation {
    Init { admin: Address, token: Address, now: u64 },
    UpdateFeeConfig {
        authorized: bool,
        lock_fee_rate: Option<i128>,
        release_fee_rate: Option<i128>,
        fee_recipient: Option<Address>,
        fee_enabled: Option<bool>,
        now: u64,
    },
    LockFunds {
        authorized: bool,
        depositor: Address,
        bounty_id: u64,
        amount: i128,
        deadline: u64,
        now: u64,
    },
    ReleaseFunds { authorized: bool, bounty_id: u64, contributor: Address, now: u64 },
    Refund { bounty_id: u64, now: u64 },
}

/// What `operation` does to `ledger`.
pub open spec fn apply(ledger: BountyLedger, operation: Operation) -> Result<Outcome, Error> {
    match operation {
        Operation::Init { admin, token, now } => ledger.init(admin, token, now),
        Operation::UpdateFeeConfig {
            authorized,
            lock_fee_rate,
            release_fee_rate,
            fee_recipient,
            fee_enabled,
            now,
        } => ledger.update_fee_config(
            authorized,
            lock_fee_rate,
            release_fee_rate,
            fee_recipient,
            fee_enabled,
            now,
        ),
        Operation::LockFunds { authorized, depositor, bounty_id, amount, deadline, now } => {
            ledger.lock_funds(authorized, depositor, bounty_id, amount, deadline, now)
        },
        Operation::ReleaseFunds { authorized, bounty_id, contributor, now } => {
            ledger.release_funds(authorized, bounty_id, contributor, now)
        },
        Operation::Refund { bounty_id, now } => ledger.refund(bounty_id, now),
    }
}

/// The ledger after `operation`: changed where it succeeds, as before where
/// it is refused.
pub open spec fn after(ledger: BountyLedger, operation: Operation) -> BountyLedger {
    match apply(ledger, operation) {
        Ok(outcome) => outcome.ledger,
        Err(_) => ledger,
    }
}

/// The ledger after `operations`, one after the other.
pub open spec fn after_all(ledger: BountyLedger, operations: Seq<Operation>) -> BountyLedger
    decreases operations.len(),
{
    if operations.len() == 0 {
        ledger
    } else {
        after(after_all(ledger, operations.drop_last()), operations.last())
    }
}

/// Whether the record under `bounty_id` exists and is released or refunded.
pub open spec fn settled(ledger: BountyLedger, bounty_id: u64) -> bool {
    ledger.escrows.contains_key(bounty_id) && ledger.escrows[bounty_id].status
        != EscrowStatus::Locked
}

/// Every operation keeps the ledger's invariant.
pub proof fn lemma_operation_keeps_invariant(ledger: BountyLedger, operation: Operation)
    requires
        ledger.wf(),
    ensures
        after(ledger, operation).wf(),
{
}

/// No operation changes a record that is released or refunded, and none
/// removes the administrator or the asset once they are recorded.
pub proof fn lemma_operation_keeps_settled(
    ledger: BountyLedger,
    operation: Operation,
    bounty_id: u64,
)
    ensures
        settled(ledger, bounty_id) ==> settled(after(ledger, operation), bounty_id) && after(
            ledger,
            operation,
        ).escrows[bounty_id] == ledger.escrows[bounty_id],
        ledger.admin is Some ==> after(ledger, operation).admin == ledger.admin && after(
            ledger,
            operation,
        ).token == ledger.token,
{
}

/// Over any sequence of operations a record that is released or refunded
/// stays as it is, and the administrator and asset stay as recorded.
pub proof fn lemma_settled_is_final(
    ledger: BountyLedger,
    operations: Seq<Operation>,
    bounty_id: u64,
)
    ensures
        settled(ledger, bounty_id) ==> settled(after_all(ledger, operations), bounty_id)
            && after_all(ledger, operations).escrows[bounty_id] == ledger.escrows[bounty_id],
        ledger.admin is Some ==> after_all(ledger, operations).admin == ledger.admin && after_all(
            ledger,
            operations,
        ).token == ledger.token,
    decreases operations.len(),
{
    if operations.len() > 0 {
        lemma_settled_is_final(ledger, operations.drop_last(), bounty_id);
        lemma_operation_keeps_settled(
            after_all(ledger, operations.drop_last()),
            operations.last(),
            bounty_id,
        );
    }
}

/// Once a record is released or refunded, then after any further operations
/// every refund of it is refused with `FundsNotLocked`, and so is every
/// release that the administrator authorized on the initialized ledger; a
/// release is refused in any case.
pub proof fn lemma_settled_record_refuses(
    ledger: BountyLedger,
    operations: Seq<Operation>,
    bounty_id: u64,
    authorized: bool,
    contributor: Address,
    now: u64,
)
    requires
        settled(ledger, bounty_id),
    ensures
        after_all(ledger, operations).refund(bounty_id, now) == Err::<Outcome, Error>(
            Error::FundsNotLocked,
        ),
        after_all(ledger, operations).release_funds(authorized, bounty_id, contributor, now) is Err,
        ledger.admin is Some && authorized ==> after_all(ledger, operations).release_funds(
            authorized,
            bounty_id,
            contributor,
            now,
        ) == Err::<Outcome, Error>(Error::FundsNotLocked),
{
    lemma_settled_is_final(ledger, operations, bounty_id);
}

/// A release or refund that succeeds leaves the record settled.
pub proof fn lemma_release_and_refund_settle(
    ledger: BountyLedger,
    authorized: bool,
    bounty_id: u64,
    contributor: Address,
    now: u64,
)
    ensures
        ledger.release_funds(authorized, bounty_id, contributor, now) is Ok ==> settled(
            ledger.release_funds(authorized, bounty_id, contributor, now)->Ok_0.ledger,
            bounty_id,
        ),
        ledger.refund(bounty_id, now) is Ok ==> settled(
            ledger.refund(bounty_id, now)->Ok_0.ledger,
            bounty_id,
        ),
{
}

/// Initialization is refused with `AlreadyInitialized` on a ledger that has
/// an administrator, and so after one initialization that succeeded,
/// whatever operations came between.
pub proof fn lemma_init_only_once(
    ledger: BountyLedger,
    operations: Seq<Operation>,
    admin: Address,
    token: Address,
    now: u64,
)
    ensures
        ledger.admin is Some ==> after_all(ledger, operations).init(admin, token, now) == Err::<
            Outcome,
            Error,
        >(Error::AlreadyInitialized),
        ledger.admin is Some ==> after(
            after_all(ledger, operations),
            Operation::Init { admin, token, now },
        ) == after_all(ledger, operations),
        ledger.admin is None ==> ledger.init(admin, token, now) is Ok && ledger.init(
            admin,
            token,
            now,
        )->Ok_0.ledger.admin == Some(admin),
{
    lemma_settled_is_final(ledger, operations, 0);
}

/// No operation is refused with `FeeRecipientNotSet`, and one is refused
/// with `Unauthorized` only where the authorization it needs is missing.
pub proof fn lemma_refusals(ledger: BountyLedger, operation: Operation)
    requires
        apply(ledger, operation) is Err,
    ensures
        apply(ledger, operation)->Err_0 != Error::FeeRecipientNotSet,
        apply(ledger, operation)->Err_0 == Error::Unauthorized ==> match operation {
            Operation::UpdateFeeConfig { authorized, .. } => !authorized,
            Operation::LockFunds { authorized, .. } => !authorized,
            Operation::ReleaseFunds { authorized, .. } => !authorized,
            _ => false,
        },
{
}

/// A deposit of a non-negative amount moves exactly that amount away from
/// the depositor: the net into custody and the fee to its recipient.
pub proof fn lemma_lock_moves_amount(
    ledger: BountyLedger,
    authorized: bool,
    depositor: Address,
    bounty_id: u64,
    amount: i128,
    deadline: u64,
    now: u64,
)
    requires
        ledger.wf(),
        amount >= 0,
        ledger.lock_funds(authorized, depositor, bounty_id, amount, deadline, now) is Ok,
    ensures
        total_moved(
            ledger.lock_funds(
                authorized,
                depositor,
                bounty_id,
                amount,
                deadline,
                now,
            )->Ok_0.transfers,
        ) == amount,
        0 <= ledger.lock_funds(
            authorized,
            depositor,
            bounty_id,
            amount,
            deadline,
            now,
        )->Ok_0.ledger.escrows[bounty_id].amount <= amount,
{
    let config = ledger.fee_config_in_force();
    let fee = charged_fee(config.fee_enabled, amount as int, config.lock_fee_rate as int);
    lemma_fee_within_amount(amount as int, config.lock_fee_rate as int);
    lemma_one_and_fee_move_both(
        Transfer { from: depositor, to: ledger.address, amount: (amount - fee) as i128 },
        depositor,
        config.fee_recipient,
        fee,
    );
}

/// A release of a non-negative deposit moves exactly the deposit out of
/// custody: the net to the contributor and the fee to its recipient. A
/// refund moves exactly the deposit, back to the depositor.
pub proof fn lemma_settlement_moves_deposit(
    ledger: BountyLedger,
    authorized: bool,
    bounty_id: u64,
    contributor: Address,
    now: u64,
)
    requires
        ledger.wf(),
        ledger.escrows.contains_key(bounty_id),
        ledger.escrows[bounty_id].amount >= 0,
    ensures
        ledger.release_funds(authorized, bounty_id, contributor, now) is Ok ==> total_moved(
            ledger.release_funds(authorized, bounty_id, contributor, now)->Ok_0.transfers,
        ) == ledger.escrows[bounty_id].amount,
        ledger.refund(bounty_id, now) is Ok ==> total_moved(
            ledger.refund(bounty_id, now)->Ok_0.transfers,
        ) == ledger.escrows[bounty_id].amount,
{
    let escrow = ledger.escrows[bounty_id];
    if ledger.release_funds(authorized, bounty_id, contributor, now) is Ok {
        let config = ledger.fee_config_in_force();
        let fee = charged_fee(
            config.fee_enabled,
            escrow.amount as int,
            config.release_fee_rate as int,
        );
        lemma_fee_within_amount(escrow.amount as int, config.release_fee_rate as int);
        lemma_one_and_fee_move_both(
            Transfer {
                from: ledger.address,
                to: contributor,
                amount: (escrow.amount - fee) as i128,
            },
            ledger.address,
            config.fee_recipient,
            fee,
        );
    }
    if ledger.refund(bounty_id, now) is Ok {
        lemma_one_and_fee_move_both(
            Transfer { from: ledger.address, to: escrow.depositor, amount: escrow.amount },
            ledger.address,
            ledger.address,
            0,
        );
        assert(ledger.refund(bounty_id, now)->Ok_0.transfers =~= seq![
            Transfer { from: ledger.address, to: escrow.depositor, amount: escrow.amount },
        ] + fee_transfers(ledger.address, ledger.address, 0));
    }
}

/// A locked record is refunded at or after its deadline and not before:
/// before, the refund is refused with `DeadlineNotPassed`; from the deadline
/// on it succeeds, and after it every refund is refused with
/// `FundsNotLocked`, whatever operations came between.
pub proof fn lemma_refund_once_after_deadline(
    ledger: BountyLedger,
    bounty_id: u64,
    now: u64,
    operations: Seq<Operation>,
    later: u64,
)
    requires
        ledger.escrows.contains_key(bounty_id),
        ledger.escrows[bounty_id].status == EscrowStatus::Locked,
    ensures
        now < ledger.escrows[bounty_id].deadline ==> ledger.refund(bounty_id, now) == Err::<
            Outcome,
            Error,
        >(Error::DeadlineNotPassed),
        now >= ledger.escrows[bounty_id].deadline ==> ledger.refund(bounty_id, now) is Ok
            && after_all(ledger.refund(bounty_id, now)->Ok_0.ledger, operations).refund(
            bounty_id,
            later,
        ) == Err::<Outcome, Error>(Error::FundsNotLocked),
{
    if now >= ledger.escrows[bounty_id].deadline {
        let refunded = ledger.refund(bounty_id, now)->Ok_0.ledger;
        lemma_settled_is_final(refunded, operations, bounty_id);
    }
}

} // verus!
