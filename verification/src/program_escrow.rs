//! The program escrow: one pooled balance, paid out singly or in batches,
//! with a running history of payouts.

use crate::fee;
use crate::fee::{charged_fee, lemma_fee_within_amount, rate_in_bounds};
use crate::identity::{clone_address, clone_label};
use crate::settlement::{fee_transfers, Effects, Transfer};
use soroban_sdk::Address;
use vstd::prelude::*;

verus! {

/// Why an operation of the program escrow was refused.
#[derive(Copy, Clone, Debug, PartialEq, Eq, Structural)]
pub enum ProgramError {
    /// A program is already recorded.
    AlreadyInitialized,
    /// No program is recorded.
    NotInitialized,
    /// The payout key has not authorized the call.
    Unauthorized,
    /// An amount is zero or negative.
    InvalidAmount,
    /// Recipients and amounts differ in number.
    LengthMismatch,
    /// The batch holds no payout.
    EmptyBatch,
    /// A sum leaves the range of the amounts.
    Overflow,
    /// More was asked for than the program holds.
    InsufficientBalance { requested: i128, available: i128 },
    /// A rate lies outside the configurable bounds.
    InvalidFeeRate,
}

/// The fee rules of the program escrow. Rates are in basis points.
#[derive(Debug, PartialEq, Eq)]
pub struct FeeConfig {
    pub lock_fee_rate: i128,
    pub payout_fee_rate: i128,
    pub fee_recipient: Address,
    pub fee_enabled: bool,
}

impl FeeConfig {
    /// Both rates lie within the configurable bounds.
    pub open spec fn valid(self) -> bool {
        rate_in_bounds(self.lock_fee_rate as int) && rate_in_bounds(self.payout_fee_rate as int)
    }

    /// No fees, and `recipient` named as the one to receive them.
    pub open spec fn disabled(recipient: Address) -> FeeConfig {
        FeeConfig {
            lock_fee_rate: 0,
            payout_fee_rate: 0,
            fee_recipient: recipient,
            fee_enabled: false,
        }
    }

    /// The fee that a payout of `amount` is charged.
    pub open spec fn payout_fee(self, amount: i128) -> int {
        charged_fee(self.fee_enabled, amount as int, self.payout_fee_rate as int)
    }

    /// What the recipient of a payout of `amount` receives.
    pub open spec fn payout_net(self, amount: i128) -> i128 {
        (amount - self.payout_fee(amount)) as i128
    }
}

impl Clone for FeeConfig {
    fn clone(&self) -> (copy: Self)
        ensures
            copy == *self,
    {
        FeeConfig {
            lock_fee_rate: self.lock_fee_rate,
            payout_fee_rate: self.payout_fee_rate,
            fee_recipient: clone_address(&self.fee_recipient),
            fee_enabled: self.fee_enabled,
        }
    }
}

/// One payout made; `amount` is what the recipient received.
#[derive(Debug, PartialEq, Eq)]
pub struct PayoutRecord {
    pub recipient: Address,
    pub amount: i128,
    pub timestamp: u64,
}

impl Clone for PayoutRecord {
    fn clone(&self) -> (copy: Self)
        ensures
            copy == *self,
    {
        PayoutRecord {
            recipient: clone_address(&self.recipient),
            amount: self.amount,
            timestamp: self.timestamp,
        }
    }
}

/// The program's account: what was locked in all, what is left to pay out,
/// and the payouts made so far, oldest first.
#[derive(Debug, PartialEq, Eq)]
pub struct ProgramData {
    pub program_id: soroban_sdk::String,
    pub total_funds: i128,
    pub remaining_balance: i128,
    pub authorized_payout_key: Address,
    pub payout_history: Vec<PayoutRecord>,
    pub token_address: Address,
}

/// The program's account as a mathematical value.
pub struct ProgramAccount {
    pub program_id: soroban_sdk::String,
    pub total_funds: i128,
    pub remaining_balance: i128,
    pub authorized_payout_key: Address,
    pub payout_history: Seq<PayoutRecord>,
    pub token_address: Address,
}

impl View for ProgramData {
    type V = ProgramAccount;

    open spec fn view(&self) -> ProgramAccount {
        ProgramAccount {
            program_id: self.program_id,
            total_funds: self.total_funds,
            remaining_balance: self.remaining_balance,
            authorized_payout_key: self.authorized_payout_key,
            payout_history: self.payout_history@,
            token_address: self.token_address,
        }
    }
}

/// A copy of `history`, record by record.
fn clone_history(history: &Vec<PayoutRecord>) -> (copy: Vec<PayoutRecord>)
    ensures
        copy@ == history@,
{
    let mut copy: Vec<PayoutRecord> = Vec::new();
    let mut i: usize = 0;
    while i < history.len()
        invariant
            i <= history.len(),
            copy@ == history@.take(i as int),
        decreases history.len() - i,
    {
        copy.push(history[i].clone());
        assert(copy@ =~= history@.take(i + 1));
        i += 1;
    }
    assert(history@.take(history.len() as int) =~= history@);
    copy
}

impl Clone for ProgramData {
    fn clone(&self) -> (copy: Self)
        ensures
            copy@ == self@,
    {
        ProgramData {
            program_id: clone_label(&self.program_id),
            total_funds: self.total_funds,
            remaining_balance: self.remaining_balance,
            authorized_payout_key: clone_address(&self.authorized_payout_key),
            payout_history: clone_history(&self.payout_history),
            token_address: clone_address(&self.token_address),
        }
    }
}

/// The operation on which a fee was charged.
#[derive(Clone, Copy, Debug, PartialEq, Eq, Structural)]
pub enum FeeSource {
    Lock,
    Payout,
}

/// A record on the audit channel of the program escrow.
#[derive(Debug, PartialEq, Eq)]
pub enum ProgramEvent {
    /// A program was recorded, with nothing locked yet.
    ProgramInitialized {
        program_id: soroban_sdk::String,
        authorized_payout_key: Address,
        token_address: Address,
        total_funds: i128,
    },
    /// Funds were locked; `amount` is net of the lock fee.
    FundsLocked { program_id: soroban_sdk::String, amount: i128, remaining_balance: i128 },
    /// Fees were charged: on one lock or one payout, or in all on one batch.
    FeeCollected { operation: FeeSource, amount: i128, fee_rate: i128, recipient: Address },
    /// A batch was paid out; `total_payout` is the sum before fees.
    BatchPayout {
        program_id: soroban_sdk::String,
        recipient_count: u32,
        total_payout: i128,
        remaining_balance: i128,
    },
    /// One payout was made; `amount` is what the recipient received.
    Payout {
        program_id: soroban_sdk::String,
        recipient: Address,
        amount: i128,
        remaining_balance: i128,
    },
    /// The fee configuration changed; the fields are the configuration
    /// after the change.
    FeeConfigUpdated {
        lock_fee_rate: i128,
        payout_fee_rate: i128,
        fee_recipient: Address,
        fee_enabled: bool,
    },
}

impl FeeSource {
    /// The word that names the operation in a fee record.
    pub open spec fn label_of(self) -> Seq<char> {
        match self {
            FeeSource::Lock => "lock"@,
            FeeSource::Payout => "payout"@,
        }
    }

    /// The word that names the operation in a fee record.
    pub fn label(&self) -> (word: &'static str)
        ensures
            word@ == self.label_of(),
    {
        match self {
            FeeSource::Lock => "lock",
            FeeSource::Payout => "payout",
        }
    }
}

impl ProgramEvent {
    /// The name under which a record is filed on the channel.
    pub open spec fn topic_of(self) -> Seq<char> {
        match self {
            ProgramEvent::ProgramInitialized { .. } => "ProgInit"@,
            ProgramEvent::FundsLocked { .. } => "FundLock"@,
            ProgramEvent::FeeCollected { .. } => "fee"@,
            ProgramEvent::BatchPayout { .. } => "BatchPay"@,
            ProgramEvent::Payout { .. } => "Payout"@,
            ProgramEvent::FeeConfigUpdated { .. } => "fee_cfg"@,
        }
    }

    /// The name under which the record is filed on the channel.
    pub fn topic(&self) -> (name: &'static str)
        ensures
            name@ == self.topic_of(),
    {
        match self {
            ProgramEvent::ProgramInitialized { .. } => "ProgInit",
            ProgramEvent::FundsLocked { .. } => "FundLock",
            ProgramEvent::FeeCollected { .. } => "fee",
            ProgramEvent::BatchPayout { .. } => "BatchPay",
            ProgramEvent::Payout { .. } => "Payout",
            ProgramEvent::FeeConfigUpdated { .. } => "fee_cfg",
        }
    }
}

/// The sum of the first `count` amounts, added one by one from the front:
/// refused with `InvalidAmount` at the first amount that is not positive and
/// with `Overflow` at the first sum that leaves the range of `i128`,
/// whichever comes first.
pub open spec fn batch_total_of_first(amounts: Seq<i128>, count: nat) -> Result<int, ProgramError>
    recommends
        count <= amounts.len(),
    decreases count,
{
    if count == 0 {
        Ok(0)
    } else {
        match batch_total_of_first(amounts, (count - 1) as nat) {
            Err(error) => Err(error),
            Ok(total) => {
                let amount = amounts[count - 1];
                if amount <= 0 {
                    Err(ProgramError::InvalidAmount)
                } else if total + amount > i128::MAX {
                    Err(ProgramError::Overflow)
                } else {
                    Ok(total + amount)
                }
            },
        }
    }
}

/// The sum of all of `amounts`: see `batch_total_of_first`.
pub open spec fn batch_total(amounts: Seq<i128>) -> Result<int, ProgramError> {
    batch_total_of_first(amounts, amounts.len())
}

/// The fees charged on the first `count` amounts, added up.
pub open spec fn batch_fees_of_first(config: FeeConfig, amounts: Seq<i128>, count: nat) -> int
    recommends
        count <= amounts.len(),
    decreases count,
{
    if count == 0 {
        0
    } else {
        batch_fees_of_first(config, amounts, (count - 1) as nat) + config.payout_fee(
            amounts[count - 1],
        )
    }
}

/// The record of a fee charged at `rate` on `operation`: one record where
/// the fee is positive, else none.
pub open spec fn fee_events(operation: FeeSource, config: FeeConfig, rate: i128, fee: int) -> Seq<
    ProgramEvent,
> {
    if fee > 0 {
        seq![
            ProgramEvent::FeeCollected {
                operation,
                amount: fee as i128,
                fee_rate: rate,
                recipient: config.fee_recipient,
            },
        ]
    } else {
        seq![]
    }
}

/// The transfer that sends `recipient` a payout of `amount`, net of the
/// payout fee.
pub open spec fn net_transfer(
    from: Address,
    config: FeeConfig,
    recipient: Address,
    amount: i128,
) -> Transfer {
    Transfer { from, to: recipient, amount: config.payout_net(amount) }
}

/// The transfers of one payout of `amount` to `recipient`: the amount net of
/// the payout fee to the recipient, then the fee, if any, to its recipient.
pub open spec fn payout_transfers(
    from: Address,
    config: FeeConfig,
    recipient: Address,
    amount: i128,
) -> Seq<Transfer> {
    seq![net_transfer(from, config, recipient, amount)] + fee_transfers(
        from,
        config.fee_recipient,
        config.payout_fee(amount),
    )
}

/// The transfers of the first `count` payouts of a batch, in order.
pub open spec fn batch_transfers_of_first(
    from: Address,
    config: FeeConfig,
    recipients: Seq<Address>,
    amounts: Seq<i128>,
    count: nat,
) -> Seq<Transfer>
    recommends
        count <= recipients.len(),
        count <= amounts.len(),
    decreases count,
{
    if count == 0 {
        seq![]
    } else {
        batch_transfers_of_first(from, config, recipients, amounts, (count - 1) as nat)
            + payout_transfers(from, config, recipients[count - 1], amounts[count - 1])
    }
}

/// The history records of the first `count` payouts of a batch made at
/// `now`, in order: each holds what its recipient received.
pub open spec fn batch_records_of_first(
    config: FeeConfig,
    recipients: Seq<Address>,
    amounts: Seq<i128>,
    now: u64,
    count: nat,
) -> Seq<PayoutRecord> {
    Seq::new(
        count,
        |i: int|
            PayoutRecord {
                recipient: recipients[i],
                amount: config.payout_net(amounts[i]),
                timestamp: now,
            },
    )
}

/// A refusal at some count of amounts is the refusal at every larger count.
pub proof fn lemma_batch_refusal_stays(amounts: Seq<i128>, count: nat, larger: nat)
    requires
        count <= larger,
        batch_total_of_first(amounts, count) is Err,
    ensures
        batch_total_of_first(amounts, larger) == batch_total_of_first(amounts, count),
    decreases larger,
{
    if count < larger {
        lemma_batch_refusal_stays(amounts, count, (larger - 1) as nat);
    }
}

/// Where the first `count` amounts have a total, so has every smaller
/// count, the totals grow with the count and stay within `i128`, and each
/// of those amounts is positive.
pub proof fn lemma_batch_total_grows(amounts: Seq<i128>, smaller: nat, count: nat)
    requires
        smaller <= count,
        batch_total_of_first(amounts, count) is Ok,
    ensures
        batch_total_of_first(amounts, smaller) is Ok,
        0 <= batch_total_of_first(amounts, smaller)->Ok_0 <= batch_total_of_first(
            amounts,
            count,
        )->Ok_0 <= i128::MAX,
        smaller < count ==> amounts[smaller as int] > 0 && batch_total_of_first(
            amounts,
            smaller,
        )->Ok_0 + amounts[smaller as int] <= batch_total_of_first(amounts, count)->Ok_0,
    decreases count,
{
    if count > 0 {
        lemma_batch_total_grows(amounts, 0, (count - 1) as nat);
        if smaller < count {
            lemma_batch_total_grows(amounts, smaller, (count - 1) as nat);
        }
    }
}

/// With rates within bounds, the fees on the first `count` amounts lie
/// between zero and the total of those amounts.
pub proof fn lemma_batch_fees_within_total(config: FeeConfig, amounts: Seq<i128>, count: nat)
    requires
        config.valid(),
        batch_total_of_first(amounts, count) is Ok,
    ensures
        0 <= batch_fees_of_first(config, amounts, count) <= batch_total_of_first(
            amounts,
            count,
        )->Ok_0,
    decreases count,
{
    if count > 0 {
        lemma_batch_total_grows(amounts, (count - 1) as nat, count);
        lemma_batch_fees_within_total(config, amounts, (count - 1) as nat);
        lemma_fee_within_amount(amounts[count - 1] as int, config.payout_fee_rate as int);
    }
}

/// The program escrow as a mathematical value.
pub struct ProgramLedger {
    /// The ledger's own identity, which holds the custodied funds.
    pub address: Address,
    pub program: Option<ProgramAccount>,
    pub fee_config: Option<FeeConfig>,
}

/// What a successful operation leaves behind: the ledger after it, and the
/// transfers and events it asks for, in order.
pub struct ProgramOutcome {
    pub ledger: ProgramLedger,
    pub transfers: Seq<Transfer>,
    pub events: Seq<ProgramEvent>,
}

impl ProgramLedger {
    /// A stored fee configuration has its rates within bounds, and the
    /// program's remaining balance is not negative.
    pub open spec fn wf(self) -> bool {
        &&& self.fee_config is Some ==> self.fee_config->Some_0.valid()
        &&& self.program is Some ==> self.program->Some_0.remaining_balance >= 0
    }

    /// The fee configuration in force: the stored one, or where none was
    /// stored, no fees with the ledger itself as recipient.
    pub open spec fn fee_config_in_force(self) -> FeeConfig {
        match self.fee_config {
            Some(config) => config,
            None => FeeConfig::disabled(self.address),
        }
    }

    /// The recording of a program: refused once one is recorded.
    pub open spec fn init_program(
        self,
        program_id: soroban_sdk::String,
        authorized_payout_key: Address,
        token_address: Address,
    ) -> Result<ProgramOutcome, ProgramError> {
        if self.program is Some {
            Err(ProgramError::AlreadyInitialized)
        } else {
            Ok(
                ProgramOutcome {
                    ledger: ProgramLedger {
                        program: Some(
                            ProgramAccount {
                                program_id,
                                total_funds: 0,
                                remaining_balance: 0,
                                authorized_payout_key,
                                payout_history: seq![],
                                token_address,
                            },
                        ),
                        fee_config: Some(FeeConfig::disabled(authorized_payout_key)),
                        ..self
                    },
                    transfers: seq![],
                    events: seq![
                        ProgramEvent::ProgramInitialized {
                            program_id,
                            authorized_payout_key,
                            token_address,
                            total_funds: 0,
                        },
                    ],
                },
            )
        }
    }

    /// A top-up of the pooled balance: it needs a positive amount and a
    /// program. Both totals grow by the amount net of the lock fee; refused
    /// with `Overflow` where either would leave the range of `i128`.
    pub open spec fn lock_program_funds(self, amount: i128) -> Result<
        ProgramOutcome,
        ProgramError,
    > {
        if amount <= 0 {
            Err(ProgramError::InvalidAmount)
        } else if self.program is None {
            Err(ProgramError::NotInitialized)
        } else {
            let program = self.program->Some_0;
            let config = self.fee_config_in_force();
            let fee = charged_fee(config.fee_enabled, amount as int, config.lock_fee_rate as int);
            let net = amount - fee;
            if program.total_funds + net > i128::MAX || program.remaining_balance + net
                > i128::MAX {
                Err(ProgramError::Overflow)
            } else {
                let remaining = (program.remaining_balance + net) as i128;
                Ok(
                    ProgramOutcome {
                        ledger: ProgramLedger {
                            program: Some(
                                ProgramAccount {
                                    total_funds: (program.total_funds + net) as i128,
                                    remaining_balance: remaining,
                                    ..program
                                },
                            ),
                            ..self
                        },
                        transfers: seq![],
                        events: fee_events(FeeSource::Lock, config, config.lock_fee_rate, fee)
                            + seq![
                            ProgramEvent::FundsLocked {
                                program_id: program.program_id,
                                amount: net as i128,
                                remaining_balance: remaining,
                            },
                        ],
                    },
                )
            }
        }
    }

    /// A batch of payouts: it needs a program, the payout key's
    /// authorization, as many amounts as recipients and at least one, a
    /// total that `batch_total` accepts, and that total within the remaining
    /// balance. Nothing is paid unless all of it is. Each recipient is sent
    /// its amount net of the payout fee, the balance falls by the total
    /// before fees, and the history grows by one record per recipient.
    pub open spec fn batch_payout(
        self,
        authorized: bool,
        recipients: Seq<Address>,
        amounts: Seq<i128>,
        now: u64,
    ) -> Result<ProgramOutcome, ProgramError> {
        if self.program is None {
            Err(ProgramError::NotInitialized)
        } else if !authorized {
            Err(ProgramError::Unauthorized)
        } else if recipients.len() != amounts.len() {
            Err(ProgramError::LengthMismatch)
        } else if recipients.len() == 0 {
            Err(ProgramError::EmptyBatch)
        } else if batch_total(amounts) is Err {
            Err(batch_total(amounts)->Err_0)
        } else if batch_total(amounts)->Ok_0 > self.program->Some_0.remaining_balance {
            Err(
                ProgramError::InsufficientBalance {
                    requested: batch_total(amounts)->Ok_0 as i128,
                    available: self.program->Some_0.remaining_balance,
                },
            )
        } else {
            let program = self.program->Some_0;
            let config = self.fee_config_in_force();
            let total = batch_total(amounts)->Ok_0;
            let remaining = (program.remaining_balance - total) as i128;
            Ok(
                ProgramOutcome {
                    ledger: ProgramLedger {
                        program: Some(
                            ProgramAccount {
                                remaining_balance: remaining,
                                payout_history: program.payout_history + batch_records_of_first(
                                    config,
                                    recipients,
                                    amounts,
                                    now,
                                    amounts.len(),
                                ),
                                ..program
                            },
                        ),
                        ..self
                    },
                    transfers: batch_transfers_of_first(
                        self.address,
                        config,
                        recipients,
                        amounts,
                        amounts.len(),
                    ),
                    events: fee_events(
                        FeeSource::Payout,
                        config,
                        config.payout_fee_rate,
                        batch_fees_of_first(config, amounts, amounts.len()),
                    ) + seq![
                        ProgramEvent::BatchPayout {
                            program_id: program.program_id,
                            recipient_count: recipients.len() as u32,
                            total_payout: total as i128,
                            remaining_balance: remaining,
                        },
                    ],
                },
            )
        }
    }

    /// One payout: it needs a program, the payout key's authorization, a
    /// positive amount, and that amount within the remaining balance. The
    /// recipient is sent the amount net of the payout fee, the balance falls
    /// by the whole amount, and the history grows by one record.
    pub open spec fn single_payout(
        self,
        authorized: bool,
        recipient: Address,
        amount: i128,
        now: u64,
    ) -> Result<ProgramOutcome, ProgramError> {
        if self.program is None {
            Err(ProgramError::NotInitialized)
        } else if !authorized {
            Err(ProgramError::Unauthorized)
        } else if amount <= 0 {
            Err(ProgramError::InvalidAmount)
        } else if amount > self.program->Some_0.remaining_balance {
            Err(
                ProgramError::InsufficientBalance {
                    requested: amount,
                    available: self.program->Some_0.remaining_balance,
                },
            )
        } else {
            let program = self.program->Some_0;
            let config = self.fee_config_in_force();
            let remaining = (program.remaining_balance - amount) as i128;
            Ok(
                ProgramOutcome {
                    ledger: ProgramLedger {
                        program: Some(
                            ProgramAccount {
                                remaining_balance: remaining,
                                payout_history: program.payout_history.push(
                                    PayoutRecord {
                                        recipient,
                                        amount: config.payout_net(amount),
                                        timestamp: now,
                                    },
                                ),
                                ..program
                            },
                        ),
                        ..self
                    },
                    transfers: payout_transfers(self.address, config, recipient, amount),
                    events: fee_events(
                        FeeSource::Payout,
                        config,
                        config.payout_fee_rate,
                        config.payout_fee(amount),
                    ) + seq![
                        ProgramEvent::Payout {
                            program_id: program.program_id,
                            recipient,
                            amount: config.payout_net(amount),
                            remaining_balance: remaining,
                        },
                    ],
                },
            )
        }
    }

    /// A change of the fee configuration: it needs a program and the payout
    /// key's authorization, and each rate supplied within bounds. Fields not
    /// supplied keep their value.
    pub open spec fn update_fee_config(
        self,
        authorized: bool,
        lock_fee_rate: Option<i128>,
        payout_fee_rate: Option<i128>,
        fee_recipient: Option<Address>,
        fee_enabled: Option<bool>,
    ) -> Result<ProgramOutcome, ProgramError> {
        if self.program is None {
            Err(ProgramError::NotInitialized)
        } else if !authorized {
            Err(ProgramError::Unauthorized)
        } else if lock_fee_rate is Some && !rate_in_bounds(lock_fee_rate->Some_0 as int) {
            Err(ProgramError::InvalidFeeRate)
        } else if payout_fee_rate is Some && !rate_in_bounds(payout_fee_rate->Some_0 as int) {
            Err(ProgramError::InvalidFeeRate)
        } else {
            let before = self.fee_config_in_force();
            let after = FeeConfig {
                lock_fee_rate: if lock_fee_rate is Some {
                    lock_fee_rate->Some_0
                } else {
                    before.lock_fee_rate
                },
                payout_fee_rate: if payout_fee_rate is Some {
                    payout_fee_rate->Some_0
                } else {
                    before.payout_fee_rate
                },
                fee_recipient: if fee_recipient is Some {
                    fee_recipient->Some_0
                } else {
                    before.fee_recipient
                },
                fee_enabled: if fee_enabled is Some {
                    fee_enabled->Some_0
                } else {
                    before.fee_enabled
                },
            };
            Ok(
                ProgramOutcome {
                    ledger: ProgramLedger { fee_config: Some(after), ..self },
                    transfers: seq![],
                    events: seq![
                        ProgramEvent::FeeConfigUpdated {
                            lock_fee_rate: after.lock_fee_rate,
                            payout_fee_rate: after.payout_fee_rate,
                            fee_recipient: after.fee_recipient,
                            fee_enabled: after.fee_enabled,
                        },
                    ],
                },
            )
        }
    }
}

/// Whether going from `pre` to `post` with `result` is what `expected` says:
/// on success the ledger, the account handed back and the effects it names,
/// on refusal its error and an unchanged ledger.
pub open spec fn carried_out(
    pre: ProgramLedger,
    post: ProgramLedger,
    result: Result<(ProgramData, Effects<ProgramEvent>), ProgramError>,
    expected: Result<ProgramOutcome, ProgramError>,
) -> bool {
    match expected {
        Ok(outcome) => {
            &&& result is Ok
            &&& post == outcome.ledger
            &&& Some(result->Ok_0.0@) == outcome.ledger.program
            &&& result->Ok_0.1.transfers@ == outcome.transfers
            &&& result->Ok_0.1.events@ == outcome.events
        },
        Err(error) => result is Err && result->Err_0 == error && post == pre,
    }
}

/// The program escrow ledger: its program account and fee configuration.
pub struct ProgramEscrowContract {
    address: Address,
    program: Option<ProgramData>,
    fee_config: Option<FeeConfig>,
}

impl View for ProgramEscrowContract {
    type V = ProgramLedger;

    closed spec fn view(&self) -> ProgramLedger {
        ProgramLedger {
            address: self.address,
            program: match self.program {
                Some(program) => Some(program@),
                None => None,
            },
            fee_config: self.fee_config,
        }
    }
}

impl ProgramEscrowContract {
    /// The ledger's invariant: see `ProgramLedger::wf`.
    pub open spec fn wf(&self) -> bool {
        self@.wf()
    }

    /// A ledger at `address` with nothing recorded.
    pub fn new(address: Address) -> (contract: Self)
        ensures
            contract.wf(),
            contract@ == (ProgramLedger { address, program: None, fee_config: None }),
    {
        ProgramEscrowContract { address, program: None, fee_config: None }
    }

    /// A ledger at `address` holding the records given, or `None` where
    /// `fee_config` has a rate out of bounds or the program's remaining
    /// balance is negative.
    pub fn restore(
        address: Address,
        program: Option<ProgramData>,
        fee_config: Option<FeeConfig>,
    ) -> (restored: Option<Self>)
        ensures
            restored is None <==> (fee_config is Some && !fee_config->Some_0.valid()) || (program
                is Some && program->Some_0.remaining_balance < 0),
            restored is Some ==> restored->Some_0.wf() && restored->Some_0@ == (ProgramLedger {
                address,
                program: match program {
                    Some(data) => Some(data@),
                    None => None,
                },
                fee_config,
            }),
    {
        if let Some(config) = &fee_config {
            if !fee::validate_rate(config.lock_fee_rate) || !fee::validate_rate(
                config.payout_fee_rate,
            ) {
                return None;
            }
        }
        if let Some(data) = &program {
            if data.remaining_balance < 0 {
                return None;
            }
        }
        Some(ProgramEscrowContract { address, program, fee_config })
    }

    /// The ledger's own identity, which holds the custodied funds.
    pub fn address(&self) -> (address: &Address)
        ensures
            *address == self@.address,
    {
        &self.address
    }

    /// The program account as stored, once a program is recorded.
    pub fn program(&self) -> (program: Option<&ProgramData>)
        ensures
            program is Some == self@.program is Some,
            program is Some ==> program->Some_0@ == self@.program->Some_0,
    {
        self.program.as_ref()
    }

    /// The fee configuration as stored, if one was stored.
    pub fn stored_fee_config(&self) -> (config: Option<&FeeConfig>)
        ensures
            config is Some == self@.fee_config is Some,
            config is Some ==> *config->Some_0 == self@.fee_config->Some_0,
    {
        self.fee_config.as_ref()
    }

    /// Records a program with nothing locked, fees switched off and the
    /// payout key as fee recipient, and hands back its account. Refused with
    /// `AlreadyInitialized` once a program is recorded.
    pub fn init_program(
        &mut self,
        program_id: soroban_sdk::String,
        authorized_payout_key: Address,
        token_address: Address,
    ) -> (result: Result<(ProgramData, Effects<ProgramEvent>), ProgramError>)
        requires
            old(self).wf(),
        ensures
            final(self).wf(),
            carried_out(
                old(self)@,
                final(self)@,
                result,
                old(self)@.init_program(program_id, authorized_payout_key, token_address),
            ),
    {
        if self.program.is_some() {
            return Err(ProgramError::AlreadyInitialized);
        }
        let program_data = ProgramData {
            program_id: clone_label(&program_id),
            total_funds: 0,
            remaining_balance: 0,
            authorized_payout_key: clone_address(&authorized_payout_key),
            payout_history: Vec::new(),
            token_address: clone_address(&token_address),
        };
        self.fee_config = Some(
            FeeConfig {
                lock_fee_rate: 0,
                payout_fee_rate: 0,
                fee_recipient: clone_address(&authorized_payout_key),
                fee_enabled: false,
            },
        );
        let data = program_data.clone();
        self.program = Some(program_data);
        let mut effects = Effects::none();
        effects.events.push(
            ProgramEvent::ProgramInitialized {
                program_id,
                authorized_payout_key,
                token_address,
                total_funds: 0,
            },
        );
        proof {
            let expected = old(self)@.init_program(
                program_id,
                authorized_payout_key,
                token_address,
            )->Ok_0;
            assert(effects.events@ =~= expected.events);
            assert(data@.payout_history =~= expected.ledger.program->Some_0.payout_history);
        }
        Ok((data, effects))
    }

    /// The fee configuration in force, copied out of the ledger.
    fn get_fee_config_internal(&self) -> (config: FeeConfig)
        requires
            self.wf(),
        ensures
            config == self@.fee_config_in_force(),
            config.valid(),
    {
        match &self.fee_config {
            Some(stored) => stored.clone(),
            None => FeeConfig {
                lock_fee_rate: 0,
                payout_fee_rate: 0,
                fee_recipient: clone_address(&self.address),
                fee_enabled: false,
            },
        }
    }

    /// Adds `amount`, net of the lock fee, to the program's total and to its
    /// remaining balance, and hands back the account. Refused with
    /// `InvalidAmount`, `NotInitialized` or `Overflow`, in that order of
    /// precedence.
    pub fn lock_program_funds(&mut self, amount: i128) -> (result: Result<
        (ProgramData, Effects<ProgramEvent>),
        ProgramError,
    >)
        requires
            old(self).wf(),
        ensures
            final(self).wf(),
            carried_out(old(self)@, final(self)@, result, old(self)@.lock_program_funds(amount)),
    {
        if amount <= 0 {
            return Err(ProgramError::InvalidAmount);
        }
        let (total_funds, remaining_balance) = match &self.program {
            Some(program) => (program.total_funds, program.remaining_balance),
            None => {
                return Err(ProgramError::NotInitialized);
            },
        };
        let fee_config = self.get_fee_config_internal();
        let fee_amount = fee::fee_when_enabled(
            fee_config.fee_enabled,
            amount,
            fee_config.lock_fee_rate,
        );
        proof {
            lemma_fee_within_amount(amount as int, fee_config.lock_fee_rate as int);
        }
        let net_amount = amount - fee_amount;
        let new_total = match total_funds.checked_add(net_amount) {
            Some(sum) => sum,
            None => {
                return Err(ProgramError::Overflow);
            },
        };
        let new_remaining = match remaining_balance.checked_add(net_amount) {
            Some(sum) => sum,
            None => {
                return Err(ProgramError::Overflow);
            },
        };
        let mut program = self.program.take().unwrap();
        program.total_funds = new_total;
        program.remaining_balance = new_remaining;
        let mut effects = Effects::none();
        if fee_amount > 0 {
            effects.events.push(
                ProgramEvent::FeeCollected {
                    operation: FeeSource::Lock,
                    amount: fee_amount,
                    fee_rate: fee_config.lock_fee_rate,
                    recipient: clone_address(&fee_config.fee_recipient),
                },
            );
        }
        effects.events.push(
            ProgramEvent::FundsLocked {
                program_id: clone_label(&program.program_id),
                amount: net_amount,
                remaining_balance: new_remaining,
            },
        );
        let data = program.clone();
        self.program = Some(program);
        proof {
            let expected = old(self)@.lock_program_funds(amount)->Ok_0;
            assert(effects.events@ =~= expected.events);
        }
        Ok((data, effects))
    }

    /// Adds up `amounts` from the front, as `batch_total` does.
    fn checked_batch_total(amounts: &Vec<i128>) -> (result: Result<i128, ProgramError>)
        ensures
            batch_total(amounts@) is Ok ==> result is Ok && result->Ok_0 as int == batch_total(
                amounts@,
            )->Ok_0,
            batch_total(amounts@) is Err ==> result is Err && result->Err_0 == batch_total(
                amounts@,
            )->Err_0,
    {
        let mut total_payout: i128 = 0;
        let mut i: usize = 0;
        while i < amounts.len()
            invariant
                i <= amounts.len(),
                0 <= total_payout,
                batch_total_of_first(amounts@, i as nat) == Ok::<int, ProgramError>(
                    total_payout as int,
                ),
            decreases amounts.len() - i,
        {
            let amount = amounts[i];
            if amount <= 0 {
                proof {
                    lemma_batch_refusal_stays(amounts@, (i + 1) as nat, amounts@.len());
                }
                return Err(ProgramError::InvalidAmount);
            }
            match total_payout.checked_add(amount) {
                Some(sum) => {
                    total_payout = sum;
                },
                None => {
                    proof {
                        lemma_batch_refusal_stays(amounts@, (i + 1) as nat, amounts@.len());
                    }
                    return Err(ProgramError::Overflow);
                },
            }
            i += 1;
        }
        Ok(total_payout)
    }

    /// Pays `amounts[i]`, net of the payout fee, to `recipients[i]` for each
    /// `i`, or nothing at all, and hands back the account. `authorized` says
    /// whether the payout key has authorized the call. Refused with
    /// `NotInitialized`, `Unauthorized`, `LengthMismatch`, `EmptyBatch`, the
    /// refusal of `batch_total`, or `InsufficientBalance`, in that order of
    /// precedence.
    pub fn batch_payout(
        &mut self,
        authorized: bool,
        recipients: Vec<Address>,
        amounts: Vec<i128>,
        now: u64,
    ) -> (result: Result<(ProgramData, Effects<ProgramEvent>), ProgramError>)
        requires
            old(self).wf(),
            recipients@.len() <= u32::MAX,
        ensures
            final(self).wf(),
            carried_out(
                old(self)@,
                final(self)@,
                result,
                old(self)@.batch_payout(authorized, recipients@, amounts@, now),
            ),
    {
        let remaining_balance = match &self.program {
            Some(program) => program.remaining_balance,
            None => {
                return Err(ProgramError::NotInitialized);
            },
        };
        if !authorized {
            return Err(ProgramError::Unauthorized);
        }
        if recipients.len() != amounts.len() {
            return Err(ProgramError::LengthMismatch);
        }
        if recipients.len() == 0 {
            return Err(ProgramError::EmptyBatch);
        }
        let total_payout = match Self::checked_batch_total(&amounts) {
            Ok(total) => total,
            Err(error) => {
                return Err(error);
            },
        };
        if total_payout > remaining_balance {
            return Err(
                ProgramError::InsufficientBalance {
                    requested: total_payout,
                    available: remaining_balance,
                },
            );
        }
        let fee_config = self.get_fee_config_internal();
        let mut program = self.program.take().unwrap();
        let ghost account = program@;
        let mut effects = Effects::none();
        let mut total_fees: i128 = 0;
        let count = recipients.len();
        let mut i: usize = 0;
        while i < count
            invariant
                i <= count,
                count == recipients.len(),
                count == amounts.len(),
                fee_config.valid(),
                batch_total_of_first(amounts@, count as nat) == Ok::<int, ProgramError>(
                    total_payout as int,
                ),
                total_fees == batch_fees_of_first(fee_config, amounts@, i as nat),
                effects.events@ == Seq::<ProgramEvent>::empty(),
                effects.transfers@ == batch_transfers_of_first(
                    self.address,
                    fee_config,
                    recipients@,
                    amounts@,
                    i as nat,
                ),
                program@ == (ProgramAccount {
                    payout_history: account.payout_history + batch_records_of_first(
                        fee_config,
                        recipients@,
                        amounts@,
                        now,
                        i as nat,
                    ),
                    ..account
                }),
            decreases count - i,
        {
            let amount = amounts[i];
            proof {
                lemma_batch_total_grows(amounts@, i as nat, count as nat);
                lemma_batch_fees_within_total(fee_config, amounts@, i as nat);
                lemma_fee_within_amount(amount as int, fee_config.payout_fee_rate as int);
            }
            let fee_amount = fee::fee_when_enabled(
                fee_config.fee_enabled,
                amount,
                fee_config.payout_fee_rate,
            );
            let net_amount = amount - fee_amount;
            total_fees = total_fees + fee_amount;
            effects.transfers.push(
                Transfer {
                    from: clone_address(&self.address),
                    to: clone_address(&recipients[i]),
                    amount: net_amount,
                },
            );
            if fee_amount > 0 {
                effects.transfers.push(
                    Transfer {
                        from: clone_address(&self.address),
                        to: clone_address(&fee_config.fee_recipient),
                        amount: fee_amount,
                    },
                );
            }
            program.payout_history.push(
                PayoutRecord {
                    recipient: clone_address(&recipients[i]),
                    amount: net_amount,
                    timestamp: now,
                },
            );
            proof {
                assert(effects.transfers@ =~= batch_transfers_of_first(
                    self.address,
                    fee_config,
                    recipients@,
                    amounts@,
                    (i + 1) as nat,
                ));
                assert(program@.payout_history =~= account.payout_history + batch_records_of_first(
                    fee_config,
                    recipients@,
                    amounts@,
                    now,
                    (i + 1) as nat,
                ));
            }
            i += 1;
        }
        if total_fees > 0 {
            effects.events.push(
                ProgramEvent::FeeCollected {
                    operation: FeeSource::Payout,
                    amount: total_fees,
                    fee_rate: fee_config.payout_fee_rate,
                    recipient: clone_address(&fee_config.fee_recipient),
                },
            );
        }
        proof {
            lemma_batch_total_grows(amounts@, 0, count as nat);
        }
        program.remaining_balance = remaining_balance - total_payout;
        effects.events.push(
            ProgramEvent::BatchPayout {
                program_id: clone_label(&program.program_id),
                recipient_count: count as u32,
                total_payout,
                remaining_balance: program.remaining_balance,
            },
        );
        let data = program.clone();
        self.program = Some(program);
        proof {
            let expected = old(self)@.batch_payout(authorized, recipients@, amounts@, now)->Ok_0;
            assert(effects.events@ =~= expected.events);
        }
        Ok((data, effects))
    }

    /// Pays `amount`, net of the payout fee, to `recipient`, and hands back
    /// the account. `authorized` says whether the payout key has authorized
    /// the call. Refused with `NotInitialized`, `Unauthorized`,
    /// `InvalidAmount` or `InsufficientBalance`, in that order of precedence.
    pub fn single_payout(
        &mut self,
        authorized: bool,
        recipient: Address,
        amount: i128,
        now: u64,
    ) -> (result: Result<(ProgramData, Effects<ProgramEvent>), ProgramError>)
        requires
            old(self).wf(),
        ensures
            final(self).wf(),
            carried_out(
                old(self)@,
                final(self)@,
                result,
                old(self)@.single_payout(authorized, recipient, amount, now),
            ),
    {
        let remaining_balance = match &self.program {
            Some(program) => program.remaining_balance,
            None => {
                return Err(ProgramError::NotInitialized);
            },
        };
        if !authorized {
            return Err(ProgramError::Unauthorized);
        }
        if amount <= 0 {
            return Err(ProgramError::InvalidAmount);
        }
        if amount > remaining_balance {
            return Err(
                ProgramError::InsufficientBalance {
                    requested: amount,
                    available: remaining_balance,
                },
            );
        }
        let fee_config = self.get_fee_config_internal();
        let fee_amount = fee::fee_when_enabled(
            fee_config.fee_enabled,
            amount,
            fee_config.payout_fee_rate,
        );
        proof {
            lemma_fee_within_amount(amount as int, fee_config.payout_fee_rate as int);
        }
        let net_amount = amount - fee_amount;
        let mut effects = Effects::none();
        effects.transfers.push(
            Transfer {
                from: clone_address(&self.address),
                to: clone_address(&recipient),
                amount: net_amount,
            },
        );
        if fee_amount > 0 {
            effects.transfers.push(
                Transfer {
                    from: clone_address(&self.address),
                    to: clone_address(&fee_config.fee_recipient),
                    amount: fee_amount,
                },
            );
            effects.events.push(
                ProgramEvent::FeeCollected {
                    operation: FeeSource::Payout,
                    amount: fee_amount,
                    fee_rate: fee_config.payout_fee_rate,
                    recipient: clone_address(&fee_config.fee_recipient),
                },
            );
        }
        let mut program = self.program.take().unwrap();
        program.payout_history.push(
            PayoutRecord {
                recipient: clone_address(&recipient),
                amount: net_amount,
                timestamp: now,
            },
        );
        program.remaining_balance = remaining_balance - amount;
        effects.events.push(
            ProgramEvent::Payout {
                program_id: clone_label(&program.program_id),
                recipient,
                amount: net_amount,
                remaining_balance: program.remaining_balance,
            },
        );
        let data = program.clone();
        self.program = Some(program);
        proof {
            let expected = old(self)@.single_payout(authorized, recipient, amount, now)->Ok_0;
            assert(effects.transfers@ =~= expected.transfers);
            assert(effects.events@ =~= expected.events);
        }
        Ok((data, effects))
    }

    /// The program's account, or `NotInitialized`.
    pub fn get_program_info(&self) -> (result: Result<ProgramData, ProgramError>)
        ensures
            self@.program is Some ==> result is Ok && Some(result->Ok_0@) == self@.program,
            self@.program is None ==> result is Err && result->Err_0
                == ProgramError::NotInitialized,
    {
        match &self.program {
            Some(program) => Ok(program.clone()),
            None => Err(ProgramError::NotInitialized),
        }
    }

    /// What is left to pay out, or `NotInitialized`.
    pub fn get_remaining_balance(&self) -> (result: Result<i128, ProgramError>)
        ensures
            self@.program is Some ==> result == Ok::<i128, ProgramError>(
                self@.program->Some_0.remaining_balance,
            ),
            self@.program is None ==> result == Err::<i128, ProgramError>(
                ProgramError::NotInitialized,
            ),
    {
        match &self.program {
            Some(program) => Ok(program.remaining_balance),
            None => Err(ProgramError::NotInitialized),
        }
    }

    /// Changes the fee configuration in the fields supplied and leaves the
    /// others as they are. `authorized` says whether the payout key has
    /// authorized the call. Refused with `NotInitialized`, `Unauthorized` or
    /// `InvalidFeeRate`, in that order of precedence.
    pub fn update_fee_config(
        &mut self,
        authorized: bool,
        lock_fee_rate: Option<i128>,
        payout_fee_rate: Option<i128>,
        fee_recipient: Option<Address>,
        fee_enabled: Option<bool>,
    ) -> (result: Result<(ProgramData, Effects<ProgramEvent>), ProgramError>)
        requires
            old(self).wf(),
        ensures
            final(self).wf(),
            carried_out(
                old(self)@,
                final(self)@,
                result,
                old(self)@.update_fee_config(
                    authorized,
                    lock_fee_rate,
                    payout_fee_rate,
                    fee_recipient,
                    fee_enabled,
                ),
            ),
    {
        let data = match &self.program {
            Some(program) => program.clone(),
            None => {
                return Err(ProgramError::NotInitialized);
            },
        };
        if !authorized {
            return Err(ProgramError::Unauthorized);
        }
        let mut fee_config = self.get_fee_config_internal();
        if let Some(rate) = lock_fee_rate {
            if !fee::validate_rate(rate) {
                return Err(ProgramError::InvalidFeeRate);
            }
            fee_config.lock_fee_rate = rate;
        }
        if let Some(rate) = payout_fee_rate {
            if !fee::validate_rate(rate) {
                return Err(ProgramError::InvalidFeeRate);
            }
            fee_config.payout_fee_rate = rate;
        }
        if let Some(recipient) = fee_recipient {
            fee_config.fee_recipient = recipient;
        }
        if let Some(enabled) = fee_enabled {
            fee_config.fee_enabled = enabled;
        }
        let mut effects = Effects::none();
        effects.events.push(
            ProgramEvent::FeeConfigUpdated {
                lock_fee_rate: fee_config.lock_fee_rate,
                payout_fee_rate: fee_config.payout_fee_rate,
                fee_recipient: clone_address(&fee_config.fee_recipient),
                fee_enabled: fee_config.fee_enabled,
            },
        );
        self.fee_config = Some(fee_config);
        proof {
            let expected = old(self)@.update_fee_config(
                authorized,
                lock_fee_rate,
                payout_fee_rate,
                fee_recipient,
                fee_enabled,
            )->Ok_0;
            assert(effects.events@ =~= expected.events);
        }
        Ok((data, effects))
    }

    /// The fee configuration in force: the stored one, or where none was
    /// stored, no fees with the ledger itself as recipient.
    pub fn get_fee_config(&self) -> (config: FeeConfig)
        requires
            self.wf(),
        ensures
            config == self@.fee_config_in_force(),
    {
        self.get_fee_config_internal()
    }

    /// Computes the fee on `amount` at `fee_rate` basis points.
    pub fn calculate_fee(amount: i128, fee_rate: i128) -> (fee: i128)
        ensures
            fee == fee::fee_of(amount as int, fee_rate as int),
    {
        fee::calculate_fee(amount, fee_rate)
    }
}

} // verus!
