use escrow::bounty_escrow::{
    BountyEscrowContract, DataKey, Error, Escrow, EscrowStatus, FeeConfig,
};
use escrow::events::{
    emit_bounty_initialized, emit_fee_collected, emit_fee_config_updated, emit_funds_locked,
    emit_funds_refunded, emit_funds_released, BountyEscrowInitialized, Event, FeeCollected,
    FeeConfigUpdated, FeeOperationType, FundsLocked, FundsRefunded, FundsReleased,
};
use escrow::settlement::{Effects, Transfer};
use soroban_sdk::{Address, Env};

const LEDGER: &str = "CAAQCAIBAEAQCAIBAEAQCAIBAEAQCAIBAEAQCAIBAEAQCAIBAEAQC526";
const TOKEN: &str = "CABAEAQCAIBAEAQCAIBAEAQCAIBAEAQCAIBAEAQCAIBAEAQCAIBAFNSZ";
const ADMIN: &str = "GAAQCAIBAEAQCAIBAEAQCAIBAEAQCAIBAEAQCAIBAEAQCAIBAEAQDZ7H";
const DEPOSITOR: &str = "GABAEAQCAIBAEAQCAIBAEAQCAIBAEAQCAIBAEAQCAIBAEAQCAIBAEJXA";
const CONTRIBUTOR: &str = "GABQGAYDAMBQGAYDAMBQGAYDAMBQGAYDAMBQGAYDAMBQGAYDAMBQHGPC";
const TREASURY: &str = "GACAIBAEAQCAIBAEAQCAIBAEAQCAIBAEAQCAIBAEAQCAIBAEAQCAJJHP";

fn at(env: &Env, strkey: &str) -> Address {
    Address::from_str(env, strkey)
}

fn initialized(env: &Env) -> BountyEscrowContract {
    let mut contract = BountyEscrowContract::new(at(env, LEDGER));
    contract.init(at(env, ADMIN), at(env, TOKEN), 1).unwrap();
    contract
}

fn with_fees(env: &Env, lock_rate: i128, release_rate: i128) -> BountyEscrowContract {
    let mut contract = initialized(env);
    contract
        .update_fee_config(
            true,
            Some(lock_rate),
            Some(release_rate),
            Some(at(env, TREASURY)),
            Some(true),
            2,
        )
        .unwrap();
    contract
}

#[test]
fn init_records_admin_and_emits_event() {
    let env = Env::default();
    let mut contract = BountyEscrowContract::new(at(&env, LEDGER));
    assert!(contract.admin().is_none());
    assert!(contract.token().is_none());
    assert!(contract.stored_fee_config().is_none());
    let effects = contract.init(at(&env, ADMIN), at(&env, TOKEN), 77).unwrap();
    assert!(effects.transfers.is_empty());
    assert_eq!(
        effects.events,
        vec![Event::Initialized(BountyEscrowInitialized {
            admin: at(&env, ADMIN),
            token: at(&env, TOKEN),
            timestamp: 77,
        })]
    );
    assert_eq!(contract.address(), &at(&env, LEDGER));
    assert_eq!(contract.admin(), Some(&at(&env, ADMIN)));
    assert_eq!(contract.token(), Some(&at(&env, TOKEN)));
    assert_eq!(
        contract.get_fee_config(),
        FeeConfig {
            lock_fee_rate: 0,
            release_fee_rate: 0,
            fee_recipient: at(&env, ADMIN),
            fee_enabled: false,
        }
    );
}

#[test]
fn second_init_fails_and_changes_nothing() {
    let env = Env::default();
    let mut contract = initialized(&env);
    assert_eq!(
        contract.init(at(&env, DEPOSITOR), at(&env, LEDGER), 9),
        Err(Error::AlreadyInitialized)
    );
    assert_eq!(contract.admin(), Some(&at(&env, ADMIN)));
    assert_eq!(contract.token(), Some(&at(&env, TOKEN)));
    assert_eq!(contract.get_fee_config().fee_recipient, at(&env, ADMIN));
}

#[test]
fn second_init_keeps_a_changed_fee_config() {
    let env = Env::default();
    let mut contract = with_fees(&env, 100, 200);
    assert_eq!(
        contract.init(at(&env, ADMIN), at(&env, TOKEN), 9),
        Err(Error::AlreadyInitialized)
    );
    let config = contract.get_fee_config();
    assert_eq!(config.lock_fee_rate, 100);
    assert_eq!(config.release_fee_rate, 200);
    assert!(config.fee_enabled);
}

#[test]
fn lock_with_one_percent_fee_stores_net_amount() {
    let env = Env::default();
    let mut contract = with_fees(&env, 100, 0);
    let effects = contract
        .lock_funds(true, at(&env, DEPOSITOR), 1, 1000, 500, 10)
        .unwrap();
    assert_eq!(
        effects.transfers,
        vec![
            Transfer { from: at(&env, DEPOSITOR), to: at(&env, LEDGER), amount: 990 },
            Transfer { from: at(&env, DEPOSITOR), to: at(&env, TREASURY), amount: 10 },
        ]
    );
    assert_eq!(
        effects.events,
        vec![
            Event::FeeCollected(FeeCollected {
                operation_type: FeeOperationType::Lock,
                amount: 10,
                fee_rate: 100,
                recipient: at(&env, TREASURY),
                timestamp: 10,
            }),
            Event::Locked(FundsLocked {
                bounty_id: 1,
                amount: 990,
                depositor: at(&env, DEPOSITOR),
                deadline: 500,
            }),
        ]
    );
    assert_eq!(
        contract.get_escrow_info(1),
        Ok(Escrow {
            depositor: at(&env, DEPOSITOR),
            amount: 990,
            status: EscrowStatus::Locked,
            deadline: 500,
        })
    );
}

#[test]
fn lock_without_fee_takes_the_whole_amount() {
    let env = Env::default();
    let mut contract = initialized(&env);
    let effects = contract
        .lock_funds(true, at(&env, DEPOSITOR), 7, 1000, 500, 10)
        .unwrap();
    assert_eq!(
        effects.transfers,
        vec![Transfer { from: at(&env, DEPOSITOR), to: at(&env, LEDGER), amount: 1000 }]
    );
    assert_eq!(
        effects.events,
        vec![Event::Locked(FundsLocked {
            bounty_id: 7,
            amount: 1000,
            depositor: at(&env, DEPOSITOR),
            deadline: 500,
        })]
    );
    assert_eq!(contract.get_escrow_info(7).unwrap().amount, 1000);
}

#[test]
fn lock_charges_nothing_while_fees_are_disabled() {
    let env = Env::default();
    let mut contract = initialized(&env);
    contract
        .update_fee_config(true, Some(500), None, None, Some(false), 2)
        .unwrap();
    let effects = contract
        .lock_funds(true, at(&env, DEPOSITOR), 1, 1000, 500, 10)
        .unwrap();
    assert_eq!(effects.transfers.len(), 1);
    assert_eq!(effects.transfers[0].amount, 1000);
    assert_eq!(effects.events.len(), 1);
}

#[test]
fn lock_with_a_fee_that_rounds_to_zero_sends_no_fee() {
    let env = Env::default();
    let mut contract = with_fees(&env, 100, 0);
    let effects = contract
        .lock_funds(true, at(&env, DEPOSITOR), 1, 99, 500, 10)
        .unwrap();
    assert_eq!(
        effects.transfers,
        vec![Transfer { from: at(&env, DEPOSITOR), to: at(&env, LEDGER), amount: 99 }]
    );
    assert_eq!(effects.events.len(), 1);
}

#[test]
fn lock_is_refused_in_order_of_precedence() {
    let env = Env::default();
    let mut fresh = BountyEscrowContract::new(at(&env, LEDGER));
    assert_eq!(
        fresh.lock_funds(false, at(&env, DEPOSITOR), 1, 1000, 500, 10),
        Err(Error::Unauthorized)
    );
    assert_eq!(
        fresh.lock_funds(true, at(&env, DEPOSITOR), 1, 1000, 500, 10),
        Err(Error::NotInitialized)
    );
    assert_eq!(fresh.get_escrow_info(1), Err(Error::BountyNotFound));

    let mut contract = initialized(&env);
    contract
        .lock_funds(true, at(&env, DEPOSITOR), 1, 1000, 500, 10)
        .unwrap();
    assert_eq!(
        contract.lock_funds(true, at(&env, CONTRIBUTOR), 1, 5, 600, 11),
        Err(Error::BountyExists)
    );
    assert_eq!(
        contract.lock_funds(false, at(&env, CONTRIBUTOR), 1, 5, 600, 11),
        Err(Error::Unauthorized)
    );
    assert_eq!(
        contract.get_escrow_info(1),
        Ok(Escrow {
            depositor: at(&env, DEPOSITOR),
            amount: 1000,
            status: EscrowStatus::Locked,
            deadline: 500,
        })
    );
}

#[test]
fn release_pays_contributor_net_of_release_fee() {
    let env = Env::default();
    let mut contract = with_fees(&env, 100, 250);
    contract
        .lock_funds(true, at(&env, DEPOSITOR), 1, 1000, 500, 10)
        .unwrap();
    let effects = contract
        .release_funds(true, 1, at(&env, CONTRIBUTOR), 20)
        .unwrap();
    // 990 in custody, 2.5% of it is 24 (rounded down), 966 is paid.
    assert_eq!(
        effects.transfers,
        vec![
            Transfer { from: at(&env, LEDGER), to: at(&env, CONTRIBUTOR), amount: 966 },
            Transfer { from: at(&env, LEDGER), to: at(&env, TREASURY), amount: 24 },
        ]
    );
    assert_eq!(
        effects.events,
        vec![
            Event::FeeCollected(FeeCollected {
                operation_type: FeeOperationType::Release,
                amount: 24,
                fee_rate: 250,
                recipient: at(&env, TREASURY),
                timestamp: 20,
            }),
            Event::Released(FundsReleased {
                bounty_id: 1,
                amount: 966,
                recipient: at(&env, CONTRIBUTOR),
                timestamp: 20,
            }),
        ]
    );
    assert_eq!(
        contract.get_escrow_info(1),
        Ok(Escrow {
            depositor: at(&env, DEPOSITOR),
            amount: 990,
            status: EscrowStatus::Released,
            deadline: 500,
        })
    );
}

#[test]
fn release_without_fee_pays_in_full() {
    let env = Env::default();
    let mut contract = initialized(&env);
    contract
        .lock_funds(true, at(&env, DEPOSITOR), 3, 400, 500, 10)
        .unwrap();
    let effects = contract
        .release_funds(true, 3, at(&env, CONTRIBUTOR), 20)
        .unwrap();
    assert_eq!(
        effects.transfers,
        vec![Transfer { from: at(&env, LEDGER), to: at(&env, CONTRIBUTOR), amount: 400 }]
    );
    assert_eq!(
        effects.events,
        vec![Event::Released(FundsReleased {
            bounty_id: 3,
            amount: 400,
            recipient: at(&env, CONTRIBUTOR),
            timestamp: 20,
        })]
    );
}

#[test]
fn release_is_refused_in_order_of_precedence() {
    let env = Env::default();
    let mut fresh = BountyEscrowContract::new(at(&env, LEDGER));
    assert_eq!(
        fresh.release_funds(false, 1, at(&env, CONTRIBUTOR), 20),
        Err(Error::NotInitialized)
    );
    let mut contract = initialized(&env);
    assert_eq!(
        contract.release_funds(false, 1, at(&env, CONTRIBUTOR), 20),
        Err(Error::Unauthorized)
    );
    assert_eq!(
        contract.release_funds(true, 1, at(&env, CONTRIBUTOR), 20),
        Err(Error::BountyNotFound)
    );
    contract
        .lock_funds(true, at(&env, DEPOSITOR), 1, 1000, 500, 10)
        .unwrap();
    assert_eq!(
        contract.release_funds(false, 1, at(&env, CONTRIBUTOR), 20),
        Err(Error::Unauthorized)
    );
    assert_eq!(contract.get_escrow_info(1).unwrap().status, EscrowStatus::Locked);
}

#[test]
fn released_funds_cannot_be_released_or_refunded_again() {
    let env = Env::default();
    let mut contract = initialized(&env);
    contract
        .lock_funds(true, at(&env, DEPOSITOR), 1, 1000, 500, 10)
        .unwrap();
    contract
        .release_funds(true, 1, at(&env, CONTRIBUTOR), 20)
        .unwrap();
    assert_eq!(
        contract.release_funds(true, 1, at(&env, CONTRIBUTOR), 21),
        Err(Error::FundsNotLocked)
    );
    assert_eq!(contract.refund(1, 1000), Err(Error::FundsNotLocked));
    assert_eq!(contract.refund(1, 0), Err(Error::FundsNotLocked));
    assert_eq!(contract.get_escrow_info(1).unwrap().status, EscrowStatus::Released);
}

#[test]
fn refunded_funds_cannot_be_released_or_refunded_again() {
    let env = Env::default();
    let mut contract = initialized(&env);
    contract
        .lock_funds(true, at(&env, DEPOSITOR), 1, 1000, 500, 10)
        .unwrap();
    contract.refund(1, 500).unwrap();
    assert_eq!(contract.refund(1, 501), Err(Error::FundsNotLocked));
    assert_eq!(
        contract.release_funds(true, 1, at(&env, CONTRIBUTOR), 502),
        Err(Error::FundsNotLocked)
    );
    assert_eq!(contract.get_escrow_info(1).unwrap().status, EscrowStatus::Refunded);
}

#[test]
fn refund_before_deadline_fails() {
    let env = Env::default();
    let mut contract = initialized(&env);
    contract
        .lock_funds(true, at(&env, DEPOSITOR), 1, 1000, 500, 10)
        .unwrap();
    assert_eq!(contract.refund(1, 499), Err(Error::DeadlineNotPassed));
    assert_eq!(contract.refund(1, 0), Err(Error::DeadlineNotPassed));
    assert_eq!(contract.get_escrow_info(1).unwrap().status, EscrowStatus::Locked);
}

#[test]
fn refund_at_deadline_returns_the_whole_amount_once() {
    let env = Env::default();
    let mut contract = with_fees(&env, 100, 250);
    contract
        .lock_funds(true, at(&env, DEPOSITOR), 1, 1000, 500, 10)
        .unwrap();
    let effects = contract.refund(1, 500).unwrap();
    assert_eq!(
        effects,
        Effects {
            transfers: vec![Transfer {
                from: at(&env, LEDGER),
                to: at(&env, DEPOSITOR),
                amount: 990,
            }],
            events: vec![Event::Refunded(FundsRefunded {
                bounty_id: 1,
                amount: 990,
                refund_to: at(&env, DEPOSITOR),
                timestamp: 500,
            })],
        }
    );
    assert_eq!(contract.refund(1, 500), Err(Error::FundsNotLocked));
}

#[test]
fn refund_after_deadline_succeeds() {
    let env = Env::default();
    let mut contract = initialized(&env);
    contract
        .lock_funds(true, at(&env, DEPOSITOR), 4, 250, 500, 10)
        .unwrap();
    let effects = contract.refund(4, u64::MAX).unwrap();
    assert_eq!(effects.transfers[0].amount, 250);
    assert_eq!(contract.get_escrow_info(4).unwrap().status, EscrowStatus::Refunded);
}

#[test]
fn refund_of_unknown_bounty_fails() {
    let env = Env::default();
    let mut contract = initialized(&env);
    assert_eq!(contract.refund(1, 1000), Err(Error::BountyNotFound));
    let mut fresh = BountyEscrowContract::new(at(&env, LEDGER));
    assert_eq!(fresh.refund(1, 1000), Err(Error::BountyNotFound));
}

#[test]
fn bounties_are_settled_independently() {
    let env = Env::default();
    let mut contract = initialized(&env);
    contract
        .lock_funds(true, at(&env, DEPOSITOR), 1, 100, 500, 10)
        .unwrap();
    contract
        .lock_funds(true, at(&env, DEPOSITOR), 2, 200, 600, 10)
        .unwrap();
    contract
        .release_funds(true, 1, at(&env, CONTRIBUTOR), 20)
        .unwrap();
    assert_eq!(contract.get_escrow_info(2).unwrap().status, EscrowStatus::Locked);
    assert_eq!(contract.refund(2, 599), Err(Error::DeadlineNotPassed));
    contract.refund(2, 600).unwrap();
    assert_eq!(contract.get_escrow_info(1).unwrap().status, EscrowStatus::Released);
    assert_eq!(contract.get_escrow_info(2).unwrap().status, EscrowStatus::Refunded);
}

#[test]
fn fee_rate_above_cap_is_rejected_and_config_kept() {
    let env = Env::default();
    let mut contract = with_fees(&env, 100, 200);
    let before = contract.get_fee_config();
    assert_eq!(
        contract.update_fee_config(true, Some(1500), None, None, None, 3),
        Err(Error::InvalidFeeRate)
    );
    assert_eq!(contract.get_fee_config(), before);
    assert_eq!(
        contract.update_fee_config(true, None, Some(1001), None, None, 3),
        Err(Error::InvalidFeeRate)
    );
    assert_eq!(
        contract.update_fee_config(true, Some(-1), None, None, None, 3),
        Err(Error::InvalidFeeRate)
    );
    assert_eq!(
        contract.update_fee_config(
            true,
            Some(50),
            Some(1001),
            Some(at(&env, ADMIN)),
            Some(false),
            3
        ),
        Err(Error::InvalidFeeRate)
    );
    assert_eq!(contract.get_fee_config(), before);
}

#[test]
fn fee_rate_at_cap_is_accepted() {
    let env = Env::default();
    let mut contract = initialized(&env);
    contract
        .update_fee_config(true, Some(1000), Some(0), None, None, 3)
        .unwrap();
    let config = contract.get_fee_config();
    assert_eq!(config.lock_fee_rate, 1000);
    assert_eq!(config.release_fee_rate, 0);
}

#[test]
fn fee_config_update_changes_only_supplied_fields() {
    let env = Env::default();
    let mut contract = initialized(&env);
    let effects = contract
        .update_fee_config(true, Some(100), None, None, None, 3)
        .unwrap();
    assert!(effects.transfers.is_empty());
    assert_eq!(
        effects.events,
        vec![Event::FeeConfigUpdated(FeeConfigUpdated {
            lock_fee_rate: 100,
            release_fee_rate: 0,
            fee_recipient: at(&env, ADMIN),
            fee_enabled: false,
            timestamp: 3,
        })]
    );
    contract
        .update_fee_config(true, None, None, Some(at(&env, TREASURY)), Some(true), 4)
        .unwrap();
    assert_eq!(
        contract.get_fee_config(),
        FeeConfig {
            lock_fee_rate: 100,
            release_fee_rate: 0,
            fee_recipient: at(&env, TREASURY),
            fee_enabled: true,
        }
    );
    contract.update_fee_config(true, None, None, None, None, 5).unwrap();
    assert_eq!(contract.get_fee_config().fee_recipient, at(&env, TREASURY));
}

#[test]
fn fee_config_update_is_refused_in_order_of_precedence() {
    let env = Env::default();
    let mut fresh = BountyEscrowContract::new(at(&env, LEDGER));
    assert_eq!(
        fresh.update_fee_config(false, Some(1500), None, None, None, 3),
        Err(Error::NotInitialized)
    );
    let mut contract = initialized(&env);
    assert_eq!(
        contract.update_fee_config(false, Some(1500), None, None, None, 3),
        Err(Error::Unauthorized)
    );
    assert_eq!(contract.get_fee_config().lock_fee_rate, 0);
}

#[test]
fn fee_config_is_synthesized_where_none_is_stored() {
    let env = Env::default();
    let contract = BountyEscrowContract::restore(
        at(&env, LEDGER),
        Some(at(&env, ADMIN)),
        Some(at(&env, TOKEN)),
        None,
    )
    .unwrap();
    assert!(contract.stored_fee_config().is_none());
    assert_eq!(
        contract.get_fee_config(),
        FeeConfig {
            lock_fee_rate: 0,
            release_fee_rate: 0,
            fee_recipient: at(&env, ADMIN),
            fee_enabled: false,
        }
    );
}

#[test]
fn restore_rejects_rates_out_of_bounds() {
    let env = Env::default();
    let config = |lock: i128, release: i128| FeeConfig {
        lock_fee_rate: lock,
        release_fee_rate: release,
        fee_recipient: at(&env, TREASURY),
        fee_enabled: true,
    };
    assert!(BountyEscrowContract::restore(at(&env, LEDGER), None, None, Some(config(1001, 0)))
        .is_none());
    assert!(BountyEscrowContract::restore(at(&env, LEDGER), None, None, Some(config(0, -1)))
        .is_none());
    let restored =
        BountyEscrowContract::restore(at(&env, LEDGER), None, None, Some(config(1000, 1000)))
            .unwrap();
    assert_eq!(restored.stored_fee_config(), Some(&config(1000, 1000)));
}

#[test]
fn restored_escrow_can_be_released() {
    let env = Env::default();
    let mut contract = BountyEscrowContract::restore(
        at(&env, LEDGER),
        Some(at(&env, ADMIN)),
        Some(at(&env, TOKEN)),
        None,
    )
    .unwrap();
    contract.restore_escrow(
        9,
        Escrow {
            depositor: at(&env, DEPOSITOR),
            amount: 75,
            status: EscrowStatus::Locked,
            deadline: 100,
        },
    );
    let effects = contract.release_funds(true, 9, at(&env, CONTRIBUTOR), 5).unwrap();
    assert_eq!(
        effects.transfers,
        vec![Transfer { from: at(&env, LEDGER), to: at(&env, CONTRIBUTOR), amount: 75 }]
    );
}

#[test]
fn balance_needs_a_configured_asset() {
    let env = Env::default();
    let fresh = BountyEscrowContract::new(at(&env, LEDGER));
    assert_eq!(fresh.get_balance(123), Err(Error::NotInitialized));
    let contract = initialized(&env);
    assert_eq!(contract.get_balance(123), Ok(123));
    assert_eq!(contract.get_balance(0), Ok(0));
}

#[test]
fn has_tells_which_records_exist() {
    let env = Env::default();
    let mut contract = BountyEscrowContract::new(at(&env, LEDGER));
    assert!(!contract.has(&DataKey::Admin));
    assert!(!contract.has(&DataKey::Token));
    assert!(!contract.has(&DataKey::FeeConfig));
    assert!(!contract.has(&DataKey::Escrow(1)));
    contract.init(at(&env, ADMIN), at(&env, TOKEN), 1).unwrap();
    assert!(contract.has(&DataKey::Admin));
    assert!(contract.has(&DataKey::Token));
    assert!(contract.has(&DataKey::FeeConfig));
    assert!(!contract.has(&DataKey::Escrow(1)));
    contract
        .lock_funds(true, at(&env, DEPOSITOR), 1, 10, 20, 2)
        .unwrap();
    assert!(contract.has(&DataKey::Escrow(1)));
    assert!(!contract.has(&DataKey::Escrow(2)));
}

#[test]
fn error_codes_are_one_to_nine() {
    assert_eq!(Error::AlreadyInitialized.code(), 1);
    assert_eq!(Error::NotInitialized.code(), 2);
    assert_eq!(Error::BountyExists.code(), 3);
    assert_eq!(Error::BountyNotFound.code(), 4);
    assert_eq!(Error::FundsNotLocked.code(), 5);
    assert_eq!(Error::DeadlineNotPassed.code(), 6);
    assert_eq!(Error::Unauthorized.code(), 7);
    assert_eq!(Error::InvalidFeeRate.code(), 8);
    assert_eq!(Error::FeeRecipientNotSet.code(), 9);
}

#[test]
fn escrow_and_fee_config_clone_to_equal_values() {
    let env = Env::default();
    let escrow = Escrow {
        depositor: at(&env, DEPOSITOR),
        amount: 5,
        status: EscrowStatus::Locked,
        deadline: 6,
    };
    assert_eq!(escrow.clone(), escrow);
    let config = FeeConfig {
        lock_fee_rate: 1,
        release_fee_rate: 2,
        fee_recipient: at(&env, TREASURY),
        fee_enabled: true,
    };
    assert_eq!(config.clone(), config);
    assert_ne!(config.clone().fee_recipient, at(&env, DEPOSITOR));
}

#[test]
fn events_are_appended_in_order() {
    let env = Env::default();
    let mut channel: Vec<Event> = Vec::new();
    emit_bounty_initialized(
        &mut channel,
        BountyEscrowInitialized { admin: at(&env, ADMIN), token: at(&env, TOKEN), timestamp: 1 },
    );
    emit_funds_locked(
        &mut channel,
        FundsLocked { bounty_id: 1, amount: 2, depositor: at(&env, DEPOSITOR), deadline: 3 },
    );
    emit_funds_released(
        &mut channel,
        FundsReleased { bounty_id: 1, amount: 2, recipient: at(&env, CONTRIBUTOR), timestamp: 4 },
    );
    emit_funds_refunded(
        &mut channel,
        FundsRefunded { bounty_id: 2, amount: 5, refund_to: at(&env, DEPOSITOR), timestamp: 6 },
    );
    emit_fee_collected(
        &mut channel,
        FeeCollected {
            operation_type: FeeOperationType::Release,
            amount: 1,
            fee_rate: 10,
            recipient: at(&env, TREASURY),
            timestamp: 7,
        },
    );
    emit_fee_config_updated(
        &mut channel,
        FeeConfigUpdated {
            lock_fee_rate: 1,
            release_fee_rate: 2,
            fee_recipient: at(&env, TREASURY),
            fee_enabled: true,
            timestamp: 8,
        },
    );
    assert_eq!(channel.len(), 6);
    assert!(matches!(channel[0], Event::Initialized(_)));
    assert!(matches!(channel[1], Event::Locked(_)));
    assert!(matches!(channel[2], Event::Released(_)));
    assert!(matches!(channel[3], Event::Refunded(_)));
    assert!(matches!(channel[4], Event::FeeCollected(_)));
    assert!(matches!(channel[5], Event::FeeConfigUpdated(_)));
    assert_eq!(
        channel[3],
        Event::Refunded(FundsRefunded {
            bounty_id: 2,
            amount: 5,
            refund_to: at(&env, DEPOSITOR),
            timestamp: 6,
        })
    );
}

#[test]
fn events_are_filed_under_their_topics() {
    let env = Env::default();
    let mut contract = with_fees(&env, 100, 100);
    let locked = contract
        .lock_funds(true, at(&env, DEPOSITOR), 11, 1000, 500, 10)
        .unwrap();
    assert_eq!(locked.events[0].topic(), "fee");
    assert_eq!(locked.events[0].bounty_id(), None);
    assert_eq!(locked.events[1].topic(), "f_lock");
    assert_eq!(locked.events[1].bounty_id(), Some(11));
    let released = contract
        .release_funds(true, 11, at(&env, CONTRIBUTOR), 20)
        .unwrap();
    assert_eq!(released.events[1].topic(), "f_rel");
    assert_eq!(released.events[1].bounty_id(), Some(11));
    contract
        .lock_funds(true, at(&env, DEPOSITOR), 12, 1000, 500, 10)
        .unwrap();
    let refunded = contract.refund(12, 500).unwrap();
    assert_eq!(refunded.events[0].topic(), "f_ref");
    assert_eq!(refunded.events[0].bounty_id(), Some(12));
    let updated = contract
        .update_fee_config(true, None, None, None, Some(false), 30)
        .unwrap();
    assert_eq!(updated.events[0].topic(), "fee_cfg");
    assert_eq!(updated.events[0].bounty_id(), None);
    let mut fresh = BountyEscrowContract::new(at(&env, LEDGER));
    let started = fresh.init(at(&env, ADMIN), at(&env, TOKEN), 1).unwrap();
    assert_eq!(started.events[0].topic(), "init");
    assert_eq!(started.events[0].bounty_id(), None);
}
