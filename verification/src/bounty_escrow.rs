//! The bounty escrow: one record per deposit, each released to a contributor
//! or refunded to its depositor after the deadline.

use crate::events::{
    emit_bounty_initialized, emit_fee_collected, emit_fee_config_updated, emit_funds_locked,
    emit_funds_refunded, emit_funds_released, BountyEscrowInitialized, Event, FeeCollected,
    FeeConfigUpdated, FeeOperationType, FundsLocked, FundsRefunded, FundsReleased,
};
use crate::fee;
use crate::fee::{charged_fee, lemma_fee_within_amount, rate_in_bounds};
use crate::identity::clone_address;
use crate::settlement::{fee_transfers, Effects, Transfer};
use soroban_sdk::Address;
use std::collections::HashMap;
use vstd::prelude::*;

verus! {

broadcast use vstd::std_specs::hash::group_hash_axioms;

/// Why an operation of the bounty escrow was refused.
#[derive(Copy, Clone, Debug, PartialEq, Eq, PartialOrd, Ord, Structural)]
pub enum Error {
    AlreadyInitialized,
    NotInitialized,
    BountyExists,
    BountyNotFound,
    FundsNotLocked,
    DeadlineNotPassed,
    Unauthorized,
    InvalidFeeRate,
    FeeRecipientNotSet,
}

impl Error {
    /// The number under which the error is reported to callers.
    pub open spec fn code_of(self) -> u32 {
        match self {
            Error::AlreadyInitialized => 1,
            Error::NotInitialized => 2,
            Error::BountyExists => 3,
            Error::BountyNotFound => 4,
            Error::FundsNotLocked => 5,
            Error::DeadlineNotPassed => 6,
            Error::Unauthorized => 7,
            Error::InvalidFeeRate => 8,
            Error::FeeRecipientNotSet => 9,
        }
    }

    /// The number under which the error is reported to callers.
    pub fn code(&self) -> (code: u32)
        ensures
            code == self.code_of(),
    {
        match self {
            Error::AlreadyInitialized => 1,
            Error::NotInitialized => 2,
            Error::BountyExists => 3,
            Error::BountyNotFound => 4,
            Error::FundsNotLocked => 5,
            Error::DeadlineNotPassed => 6,
            Error::Unauthorized => 7,
            Error::InvalidFeeRate => 8,
            Error::FeeRecipientNotSet => 9,
        }
    }
}

/// Where a deposit stands. `Released` and `Refunded` are final.
#[derive(Copy, Clone, Debug, PartialEq, Eq, Structural)]
pub enum EscrowStatus {
    Locked,
    Released,
    Refunded,
}

/// One deposit held in custody; `amount` is net of the lock fee.
#[derive(Debug, PartialEq, Eq)]
pub struct Escrow {
    pub depositor: Address,
    pub amount: i128,
    pub status: EscrowStatus,
    pub deadline: u64,
}

impl Clone for Escrow {
    fn clone(&self) -> (copy: Self)
        ensures
            copy == *self,
    {
        Escrow {
            depositor: clone_address(&self.depositor),
            amount: self.amount,
            status: self.status,
            deadline: self.deadline,
        }
    }
}

/// The fee rules of the bounty escrow. Rates are in basis points.
#[derive(Debug, PartialEq, Eq)]
pub struct FeeConfig {
    pub lock_fee_rate: i128,
    pub release_fee_rate: i128,
    pub fee_recipient: Address,
    pub fee_enabled: bool,
}

impl FeeConfig {
    /// Both rates lie within the configurable bounds.
    pub open spec fn valid(self) -> bool {
        rate_in_bounds(self.lock_fee_rate as int) && rate_in_bounds(self.release_fee_rate as int)
    }

    /// No fees, and `recipient` named as the one to receive them.
    pub open spec fn disabled(recipient: Address) -> FeeConfig {
        FeeConfig {
            lock_fee_rate: 0,
            release_fee_rate: 0,
            fee_recipient: recipient,
            fee_enabled: false,
        }
    }
}

impl Clone for FeeConfig {
    fn clone(&self) -> (copy: Self)
        ensures
            copy == *self,
    {
        FeeConfig {
            lock_fee_rate: self.lock_fee_rate,
            release_fee_rate: self.release_fee_rate,
            fee_recipient: clone_address(&self.fee_recipient),
            fee_enabled: self.fee_enabled,
        }
    }
}

/// The keys under which the ledger's records are kept.
#[derive(Copy, Clone, Debug, PartialEq, Eq, Structural)]
pub enum DataKey {
    Admin,
    Token,
    Escrow(u64),
    FeeConfig,
}

/// The bounty escrow as a mathematical value.
pub struct BountyLedger {
    /// The ledger's own identity, which holds the custodied funds.
    pub address: Address,
    pub admin: Option<Address>,
    pub token: Option<Address>,
    pub fee_config: Option<FeeConfig>,
    pub escrows: Map<u64, Escrow>,
}

/// What a successful operation leaves behind: the ledger after it, and the
/// transfers and events it asks for, in order.
pub struct Outcome {
    pub ledger: BountyLedger,
    pub transfers: Seq<Transfer>,
    pub events: Seq<Event>,
}

impl BountyLedger {
    /// A stored fee configuration has its rates within bounds.
    pub open spec fn wf(self) -> bool {
        self.fee_config is Some ==> self.fee_config->Some_0.valid()
    }

    /// Whether a record is kept under `key`.
    pub open spec fn has(self, key: DataKey) -> bool {
        match key {
            DataKey::Admin => self.admin is Some,
            DataKey::Token => self.token is Some,
            DataKey::Escrow(bounty_id) => self.escrows.contains_key(bounty_id),
            DataKey::FeeConfig => self.fee_config is Some,
        }
    }

    /// The fee configuration in force: the stored one, or where none was
    /// stored, no fees with the administrator as recipient.
    pub open spec fn fee_config_in_force(self) -> FeeConfig
        recommends
            self.fee_config is Some || self.admin is Some,
    {
        match self.fee_config {
            Some(config) => config,
            None => FeeConfig::disabled(self.admin->Some_0),
        }
    }

    /// Initialization: refused once an administrator is recorded.
    pub open spec fn init(self, admin: Address, token: Address, now: u64) -> Result<
        Outcome,
        Error,
    > {
        if self.admin is Some {
            Err(Error::AlreadyInitialized)
        } else {
            Ok(
                Outcome {
                    ledger: BountyLedger {
                        admin: Some(admin),
                        token: Some(token),
                        fee_config: Some(FeeConfig::disabled(admin)),
                        ..self
                    },
                    transfers: seq![],
                    events: seq![
                        Event::Initialized(
                            BountyEscrowInitialized { admin, token, timestamp: now },
                        ),
                    ],
                },
            )
        }
    }

    /// The record of a fee charged at `rate` on `operation`: one record where
    /// the fee is positive, else none.
    pub open spec fn fee_events(
        operation: FeeOperationType,
        config: FeeConfig,
        rate: i128,
        fee: int,
        now: u64,
    ) -> Seq<Event> {
        if fee > 0 {
            seq![
                Event::FeeCollected(
                    FeeCollected {
                        operation_type: operation,
                        amount: fee as i128,
                        fee_rate: rate,
                        recipient: config.fee_recipient,
                        timestamp: now,
                    },
                ),
            ]
        } else {
            seq![]
        }
    }

    /// A change of the fee configuration: it needs the ledger initialized
    /// and the administrator's authorization, and each rate supplied within
    /// bounds. Fields not supplied keep their value.
    pub open spec fn update_fee_config(
        self,
        authorized: bool,
        lock_fee_rate: Option<i128>,
        release_fee_rate: Option<i128>,
        fee_recipient: Option<Address>,
        fee_enabled: Option<bool>,
        now: u64,
    ) -> Result<Outcome, Error> {
        if self.admin is None {
            Err(Error::NotInitialized)
        } else if !authorized {
            Err(Error::Unauthorized)
        } else if lock_fee_rate is Some && !rate_in_bounds(lock_fee_rate->Some_0 as int) {
            Err(Error::InvalidFeeRate)
        } else if release_fee_rate is Some && !rate_in_bounds(release_fee_rate->Some_0 as int) {
            Err(Error::InvalidFeeRate)
        } else {
            let before = self.fee_config_in_force();
            let after = FeeConfig {
                lock_fee_rate: if lock_fee_rate is Some {
                    lock_fee_rate->Some_0
                } else {
                    before.lock_fee_rate
                },
                release_fee_rate: if release_fee_rate is Some {
                    release_fee_rate->Some_0
                } else {
                    before.release_fee_rate
                },
                fee_recipient: if fee_recipient is Some {
                    fee_recipient->Some_0
                } else {
                    before.fee_recipient
                },
                fee_enabled: if fee_enabled is Some {
                    fee_enabled->Some_0
                } else {
                    before.fee_enabled
                },
            };
            Ok(
                Outcome {
                    ledger: BountyLedger { fee_config: Some(after), ..self },
                    transfers: seq![],
                    events: seq![
                        Event::FeeConfigUpdated(
                            FeeConfigUpdated {
                                lock_fee_rate: after.lock_fee_rate,
                                release_fee_rate: after.release_fee_rate,
                                fee_recipient: after.fee_recipient,
                                fee_enabled: after.fee_enabled,
                                timestamp: now,
                            },
                        ),
                    ],
                },
            )
        }
    }

    /// A deposit: it needs the depositor's authorization, the ledger
    /// initialized, and no record under `bounty_id` yet. The lock fee goes
    /// from the depositor to the fee recipient, the rest into custody, and
    /// the record holds the rest.
    pub open spec fn lock_funds(
        self,
        authorized: bool,
        depositor: Address,
        bounty_id: u64,
        amount: i128,
        deadline: u64,
        now: u64,
    ) -> Result<Outcome, Error> {
        if !authorized {
            Err(Error::Unauthorized)
        } else if self.admin is None {
            Err(Error::NotInitialized)
        } else if self.escrows.contains_key(bounty_id) {
            Err(Error::BountyExists)
        } else {
            let config = self.fee_config_in_force();
            let fee = charged_fee(config.fee_enabled, amount as int, config.lock_fee_rate as int);
            let net = (amount - fee) as i128;
            Ok(
                Outcome {
                    ledger: BountyLedger {
                        escrows: self.escrows.insert(
                            bounty_id,
                            Escrow {
                                depositor,
                                amount: net,
                                status: EscrowStatus::Locked,
                                deadline,
                            },
                        ),
                        ..self
                    },
                    transfers: seq![Transfer { from: depositor, to: self.address, amount: net }]
                        + fee_transfers(depositor, config.fee_recipient, fee),
                    events: Self::fee_events(
                        FeeOperationType::Lock,
                        config,
                        config.lock_fee_rate,
                        fee,
                        now,
                    ) + seq![
                        Event::Locked(FundsLocked { bounty_id, amount: net, depositor, deadline }),
                    ],
                },
            )
        }
    }

    /// A release to `contributor`: it needs the ledger initialized, the
    /// administrator's authorization, and a record under `bounty_id` that is
    /// still locked. The release fee is taken from the record's amount, the
    /// rest goes to the contributor, and the record becomes `Released`.
    pub open spec fn release_funds(
        self,
        authorized: bool,
        bounty_id: u64,
        contributor: Address,
        now: u64,
    ) -> Result<Outcome, Error> {
        if self.admin is None {
            Err(Error::NotInitialized)
        } else if !authorized {
            Err(Error::Unauthorized)
        } else if !self.escrows.contains_key(bounty_id) {
            Err(Error::BountyNotFound)
        } else if self.escrows[bounty_id].status != EscrowStatus::Locked {
            Err(Error::FundsNotLocked)
        } else {
            let escrow = self.escrows[bounty_id];
            let config = self.fee_config_in_force();
            let fee = charged_fee(
                config.fee_enabled,
                escrow.amount as int,
                config.release_fee_rate as int,
            );
            let net = (escrow.amount - fee) as i128;
            Ok(
                Outcome {
                    ledger: BountyLedger {
                        escrows: self.escrows.insert(
                            bounty_id,
                            Escrow { status: EscrowStatus::Released, ..escrow },
                        ),
                        ..self
                    },
                    transfers: seq![Transfer { from: self.address, to: contributor, amount: net }]
                        + fee_transfers(self.address, config.fee_recipient, fee),
                    events: Self::fee_events(
                        FeeOperationType::Release,
                        config,
                        config.release_fee_rate,
                        fee,
                        now,
                    ) + seq![
                        Event::Released(
                            FundsReleased {
                                bounty_id,
                                amount: net,
                                recipient: contributor,
                                timestamp: now,
                            },
                        ),
                    ],
                },
            )
        }
    }

    /// A refund: open to anyone, it needs a record under `bounty_id` that is
    /// still locked and whose deadline is not after `now`. The whole amount
    /// goes back to the depositor and the record becomes `Refunded`.
    pub open spec fn refund(self, bounty_id: u64, now: u64) -> Result<Outcome, Error> {
        if !self.escrows.contains_key(bounty_id) {
            Err(Error::BountyNotFound)
        } else if self.escrows[bounty_id].status != EscrowStatus::Locked {
            Err(Error::FundsNotLocked)
        } else if now < self.escrows[bounty_id].deadline {
            Err(Error::DeadlineNotPassed)
        } else {
            let escrow = self.escrows[bounty_id];
            Ok(
                Outcome {
                    ledger: BountyLedger {
                        escrows: self.escrows.insert(
                            bounty_id,
                            Escrow { status: EscrowStatus::Refunded, ..escrow },
                        ),
                        ..self
                    },
                    transfers: seq![
                        Transfer {
                            from: self.address,
                            to: escrow.depositor,
                            amount: escrow.amount,
                        },
                    ],
                    events: seq![
                        Event::Refunded(
                            FundsRefunded {
                                bounty_id,
                                amount: escrow.amount,
                                refund_to: escrow.depositor,
                                timestamp: now,
                            },
                        ),
                    ],
                },
            )
        }
    }
}

/// Whether going from `pre` to `post` with `result` is what `expected` says:
/// on success the ledger and the effects it names, on refusal its error and
/// an unchanged ledger.
pub open spec fn carried_out(
    pre: BountyLedger,
    post: BountyLedger,
    result: Result<Effects<Event>, Error>,
    expected: Result<Outcome, Error>,
) -> bool {
    match expected {
        Ok(outcome) => {
            &&& result is Ok
            &&& post == outcome.ledger
            &&& result->Ok_0.transfers@ == outcome.transfers
            &&& result->Ok_0.events@ == outcome.events
        },
        Err(error) => result == Err::<Effects<Event>, Error>(error) && post == pre,
    }
}

/// The bounty escrow ledger: its configuration and its deposits.
pub struct BountyEscrowContract {
    address: Address,
    admin: Option<Address>,
    token: Option<Address>,
    fee_config: Option<FeeConfig>,
    escrows: HashMap<u64, Escrow>,
}

impl View for BountyEscrowContract {
    type V = BountyLedger;

    closed spec fn view(&self) -> BountyLedger {
        BountyLedger {
            address: self.address,
            admin: self.admin,
            token: self.token,
            fee_config: self.fee_config,
            escrows: self.escrows@,
        }
    }
}

impl BountyEscrowContract {
    /// The ledger's invariant: see `BountyLedger::wf`.
    pub open spec fn wf(&self) -> bool {
        self@.wf()
    }

    /// A ledger at `address` with nothing recorded.
    pub fn new(address: Address) -> (contract: Self)
        ensures
            contract.wf(),
            contract@ == (BountyLedger {
                address,
                admin: None,
                token: None,
                fee_config: None,
                escrows: Map::empty(),
            }),
    {
        BountyEscrowContract {
            address,
            admin: None,
            token: None,
            fee_config: None,
            escrows: HashMap::new(),
        }
    }

    /// A ledger at `address` holding the records given, or `None` where
    /// `fee_config` has a rate out of bounds.
    pub fn restore(
        address: Address,
        admin: Option<Address>,
        token: Option<Address>,
        fee_config: Option<FeeConfig>,
    ) -> (restored: Option<Self>)
        ensures
            (fee_config is Some && !fee_config->Some_0.valid()) <==> restored is None,
            restored is Some ==> restored->Some_0.wf() && restored->Some_0@ == (BountyLedger {
                address,
                admin,
                token,
                fee_config,
                escrows: Map::empty(),
            }),
    {
        if let Some(config) = &fee_config {
            if !fee::validate_rate(config.lock_fee_rate) || !fee::validate_rate(
                config.release_fee_rate,
            ) {
                return None;
            }
        }
        Some(BountyEscrowContract { address, admin, token, fee_config, escrows: HashMap::new() })
    }

    /// Puts `escrow` under `bounty_id`, in place of any record kept there.
    pub fn restore_escrow(&mut self, bounty_id: u64, escrow: Escrow)
        requires
            old(self).wf(),
        ensures
            final(self).wf(),
            final(self)@ == (BountyLedger {
                escrows: old(self)@.escrows.insert(bounty_id, escrow),
                ..old(self)@
            }),
    {
        self.escrows.insert(bounty_id, escrow);
    }

    /// The ledger's own identity, which holds the custodied funds.
    pub fn address(&self) -> (address: &Address)
        ensures
            *address == self@.address,
    {
        &self.address
    }

    /// The administrator, once the ledger is initialized.
    pub fn admin(&self) -> (admin: Option<&Address>)
        ensures
            admin is Some == self@.admin is Some,
            admin is Some ==> *admin->Some_0 == self@.admin->Some_0,
    {
        self.admin.as_ref()
    }

    /// The asset that the ledger settles in, once it is initialized.
    pub fn token(&self) -> (token: Option<&Address>)
        ensures
            token is Some == self@.token is Some,
            token is Some ==> *token->Some_0 == self@.token->Some_0,
    {
        self.token.as_ref()
    }

    /// The fee configuration as stored, if one was stored.
    pub fn stored_fee_config(&self) -> (config: Option<&FeeConfig>)
        ensures
            config is Some == self@.fee_config is Some,
            config is Some ==> *config->Some_0 == self@.fee_config->Some_0,
    {
        self.fee_config.as_ref()
    }

    /// Records the administrator and the asset, with fees switched off and
    /// the administrator as fee recipient. Refused with `AlreadyInitialized`
    /// once an administrator is recorded.
    pub fn init(&mut self, admin: Address, token: Address, now: u64) -> (result: Result<
        Effects<Event>,
        Error,
    >)
        requires
            old(self).wf(),
        ensures
            final(self).wf(),
            carried_out(old(self)@, final(self)@, result, old(self)@.init(admin, token, now)),
    {
        if self.admin.is_some() {
            return Err(Error::AlreadyInitialized);
        }
        self.fee_config = Some(
            FeeConfig {
                lock_fee_rate: 0,
                release_fee_rate: 0,
                fee_recipient: clone_address(&admin),
                fee_enabled: false,
            },
        );
        self.admin = Some(clone_address(&admin));
        self.token = Some(clone_address(&token));
        let mut effects = Effects::none();
        emit_bounty_initialized(
            &mut effects.events,
            BountyEscrowInitialized { admin, token, timestamp: now },
        );
        Ok(effects)
    }

    /// The fee configuration in force, copied out of the ledger.
    fn get_fee_config_internal(&self) -> (config: FeeConfig)
        requires
            self.wf(),
            self@.fee_config is Some || self@.admin is Some,
        ensures
            config == self@.fee_config_in_force(),
            config.valid(),
    {
        match &self.fee_config {
            Some(stored) => stored.clone(),
            None => FeeConfig {
                lock_fee_rate: 0,
                release_fee_rate: 0,
                fee_recipient: clone_address(self.admin.as_ref().unwrap()),
                fee_enabled: false,
            },
        }
    }

    /// Changes the fee configuration in the fields supplied and leaves the
    /// others as they are. `authorized` says whether the administrator has
    /// authorized the call. Refused with `NotInitialized`, `Unauthorized` or
    /// `InvalidFeeRate`, in that order of precedence.
    pub fn update_fee_config(
        &mut self,
        authorized: bool,
        lock_fee_rate: Option<i128>,
        release_fee_rate: Option<i128>,
        fee_recipient: Option<Address>,
        fee_enabled: Option<bool>,
        now: u64,
    ) -> (result: Result<Effects<Event>, Error>)
        requires
            old(self).wf(),
        ensures
            final(self).wf(),
            carried_out(
                old(self)@,
                final(self)@,
                result,
                old(self)@.update_fee_config(
                    authorized,
                    lock_fee_rate,
                    release_fee_rate,
                    fee_recipient,
                    fee_enabled,
                    now,
                ),
            ),
    {
        if self.admin.is_none() {
            return Err(Error::NotInitialized);
        }
        if !authorized {
            return Err(Error::Unauthorized);
        }
        let mut fee_config = self.get_fee_config_internal();
        if let Some(rate) = lock_fee_rate {
            if !fee::validate_rate(rate) {
                return Err(Error::InvalidFeeRate);
            }
            fee_config.lock_fee_rate = rate;
        }
        if let Some(rate) = release_fee_rate {
            if !fee::validate_rate(rate) {
                return Err(Error::InvalidFeeRate);
            }
            fee_config.release_fee_rate = rate;
        }
        if let Some(recipient) = fee_recipient {
            fee_config.fee_recipient = recipient;
        }
        if let Some(enabled) = fee_enabled {
            fee_config.fee_enabled = enabled;
        }
        let event = FeeConfigUpdated {
            lock_fee_rate: fee_config.lock_fee_rate,
            release_fee_rate: fee_config.release_fee_rate,
            fee_recipient: clone_address(&fee_config.fee_recipient),
            fee_enabled: fee_config.fee_enabled,
            timestamp: now,
        };
        self.fee_config = Some(fee_config);
        let mut effects = Effects::none();
        emit_fee_config_updated(&mut effects.events, event);
        Ok(effects)
    }

    /// The fee configuration in force: the stored one, or where none was
    /// stored, no fees with the administrator as recipient.
    pub fn get_fee_config(&self) -> (config: FeeConfig)
        requires
            self.wf(),
            self@.fee_config is Some || self@.admin is Some,
        ensures
            config == self@.fee_config_in_force(),
    {
        self.get_fee_config_internal()
    }

    /// Takes a deposit of `amount` into custody under `bounty_id`, net of the
    /// lock fee. `authorized` says whether the depositor has authorized the
    /// call. Refused with `Unauthorized`, `NotInitialized` or `BountyExists`,
    /// in that order of precedence.
    pub fn lock_funds(
        &mut self,
        authorized: bool,
        depositor: Address,
        bounty_id: u64,
        amount: i128,
        deadline: u64,
        now: u64,
    ) -> (result: Result<Effects<Event>, Error>)
        requires
            old(self).wf(),
        ensures
            final(self).wf(),
            carried_out(
                old(self)@,
                final(self)@,
                result,
                old(self)@.lock_funds(authorized, depositor, bounty_id, amount, deadline, now),
            ),
    {
        if !authorized {
            return Err(Error::Unauthorized);
        }
        if self.admin.is_none() {
            return Err(Error::NotInitialized);
        }
        if self.escrows.contains_key(&bounty_id) {
            return Err(Error::BountyExists);
        }
        let fee_config = self.get_fee_config_internal();
        let fee_amount = fee::fee_when_enabled(
            fee_config.fee_enabled,
            amount,
            fee_config.lock_fee_rate,
        );
        proof {
            lemma_fee_within_amount(amount as int, fee_config.lock_fee_rate as int);
        }
        let net_amount = amount - fee_amount;
        let mut effects = Effects::none();
        effects.transfers.push(
            Transfer {
                from: clone_address(&depositor),
                to: clone_address(&self.address),
                amount: net_amount,
            },
        );
        if fee_amount > 0 {
            effects.transfers.push(
                Transfer {
                    from: clone_address(&depositor),
                    to: clone_address(&fee_config.fee_recipient),
                    amount: fee_amount,
                },
            );
            emit_fee_collected(
                &mut effects.events,
                FeeCollected {
                    operation_type: FeeOperationType::Lock,
                    amount: fee_amount,
                    fee_rate: fee_config.lock_fee_rate,
                    recipient: clone_address(&fee_config.fee_recipient),
                    timestamp: now,
                },
            );
        }
        self.escrows.insert(
            bounty_id,
            Escrow {
                depositor: clone_address(&depositor),
                amount: net_amount,
                status: EscrowStatus::Locked,
                deadline,
            },
        );
        emit_funds_locked(
            &mut effects.events,
            FundsLocked { bounty_id, amount: net_amount, depositor, deadline },
        );
        proof {
            let expected = old(self)@.lock_funds(
                authorized,
                depositor,
                bounty_id,
                amount,
                deadline,
                now,
            )->Ok_0;
            assert(effects.transfers@ =~= expected.transfers);
            assert(effects.events@ =~= expected.events);
        }
        Ok(effects)
    }

    /// Pays the deposit under `bounty_id` to `contributor`, net of the
    /// release fee, and marks it `Released`. `authorized` says whether the
    /// administrator has authorized the call. Refused with `NotInitialized`,
    /// `Unauthorized`, `BountyNotFound` or `FundsNotLocked`, in that order of
    /// precedence.
    pub fn release_funds(
        &mut self,
        authorized: bool,
        bounty_id: u64,
        contributor: Address,
        now: u64,
    ) -> (result: Result<Effects<Event>, Error>)
        requires
            old(self).wf(),
        ensures
            final(self).wf(),
            carried_out(
                old(self)@,
                final(self)@,
                result,
                old(self)@.release_funds(authorized, bounty_id, contributor, now),
            ),
    {
        if self.admin.is_none() {
            return Err(Error::NotInitialized);
        }
        if !authorized {
            return Err(Error::Unauthorized);
        }
        let mut escrow = match self.escrows.get(&bounty_id) {
            Some(found) => found.clone(),
            None => {
                return Err(Error::BountyNotFound);
            },
        };
        if escrow.status != EscrowStatus::Locked {
            return Err(Error::FundsNotLocked);
        }
        let fee_config = self.get_fee_config_internal();
        let fee_amount = fee::fee_when_enabled(
            fee_config.fee_enabled,
            escrow.amount,
            fee_config.release_fee_rate,
        );
        proof {
            lemma_fee_within_amount(escrow.amount as int, fee_config.release_fee_rate as int);
        }
        let net_amount = escrow.amount - fee_amount;
        let mut effects = Effects::none();
        effects.transfers.push(
            Transfer {
                from: clone_address(&self.address),
                to: clone_address(&contributor),
                amount: net_amount,
            },
        );
        if fee_amount > 0 {
            effects.transfers.push(
                Transfer {
                    from: clone_address(&self.address),
                    to: clone_address(&fee_config.fee_recipient),
                    amount: fee_amount,
                },
            );
            emit_fee_collected(
                &mut effects.events,
                FeeCollected {
                    operation_type: FeeOperationType::Release,
                    amount: fee_amount,
                    fee_rate: fee_config.release_fee_rate,
                    recipient: clone_address(&fee_config.fee_recipient),
                    timestamp: now,
                },
            );
        }
        escrow.status = EscrowStatus::Released;
        self.escrows.insert(bounty_id, escrow);
        emit_funds_released(
            &mut effects.events,
            FundsReleased { bounty_id, amount: net_amount, recipient: contributor, timestamp: now },
        );
        proof {
            let expected = old(self)@.release_funds(authorized, bounty_id, contributor, now)->Ok_0;
            assert(effects.transfers@ =~= expected.transfers);
            assert(effects.events@ =~= expected.events);
        }
        Ok(effects)
    }

    /// Returns the deposit under `bounty_id` to its depositor in full and
    /// marks it `Refunded`. Anyone may call it. Refused with
    /// `BountyNotFound`, `FundsNotLocked`, or `DeadlineNotPassed` while `now`
    /// is before the deadline, in that order of precedence.
    pub fn refund(&mut self, bounty_id: u64, now: u64) -> (result: Result<Effects<Event>, Error>)
        requires
            old(self).wf(),
        ensures
            final(self).wf(),
            carried_out(old(self)@, final(self)@, result, old(self)@.refund(bounty_id, now)),
    {
        let mut escrow = match self.escrows.get(&bounty_id) {
            Some(found) => found.clone(),
            None => {
                return Err(Error::BountyNotFound);
            },
        };
        if escrow.status != EscrowStatus::Locked {
            return Err(Error::FundsNotLocked);
        }
        if now < escrow.deadline {
            return Err(Error::DeadlineNotPassed);
        }
        let mut effects = Effects::none();
        effects.transfers.push(
            Transfer {
                from: clone_address(&self.address),
                to: clone_address(&escrow.depositor),
                amount: escrow.amount,
            },
        );
        let event = FundsRefunded {
            bounty_id,
            amount: escrow.amount,
            refund_to: clone_address(&escrow.depositor),
            timestamp: now,
        };
        escrow.status = EscrowStatus::Refunded;
        self.escrows.insert(bounty_id, escrow);
        emit_funds_refunded(&mut effects.events, event);
        proof {
            let expected = old(self)@.refund(bounty_id, now)->Ok_0;
            assert(effects.transfers@ =~= expected.transfers);
            assert(effects.events@ =~= expected.events);
        }
        Ok(effects)
    }

    /// The record kept under `bounty_id`, or `BountyNotFound`.
    pub fn get_escrow_info(&self, bounty_id: u64) -> (result: Result<Escrow, Error>)
        ensures
            self@.escrows.contains_key(bounty_id) ==> result == Ok::<Escrow, Error>(
                self@.escrows[bounty_id],
            ),
            !self@.escrows.contains_key(bounty_id) ==> result == Err::<Escrow, Error>(
                Error::BountyNotFound,
            ),
    {
        match self.escrows.get(&bounty_id) {
            Some(found) => Ok(found.clone()),
            None => Err(Error::BountyNotFound),
        }
    }

    /// The ledger's holding of the configured asset: `held`, the balance that
    /// the settlement gateway reports for the ledger's own identity, or
    /// `NotInitialized` where no asset is configured.
    pub fn get_balance(&self, held: i128) -> (result: Result<i128, Error>)
        ensures
            self@.token is Some ==> result == Ok::<i128, Error>(held),
            self@.token is None ==> result == Err::<i128, Error>(Error::NotInitialized),
    {
        if self.token.is_none() {
            return Err(Error::NotInitialized);
        }
        Ok(held)
    }

    /// Whether a record is kept under `key`.
    pub fn has(&self, key: &DataKey) -> (found: bool)
        ensures
            found == self@.has(*key),
    {
        match key {
            DataKey::Admin => self.admin.is_some(),
            DataKey::Token => self.token.is_some(),
            DataKey::Escrow(bounty_id) => self.escrows.contains_key(bounty_id),
            DataKey::FeeConfig => self.fee_config.is_some(),
        }
    }

    /// Computes the fee on `amount` at `fee_rate` basis points.
    pub fn calculate_fee(amount: i128, fee_rate: i128) -> (fee: i128)
        ensures
            fee == fee::fee_of(amount as int, fee_rate as int),
    {
        fee::calculate_fee(amount, fee_rate)
    }
}

} // verus!
