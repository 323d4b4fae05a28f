//! The audit records of the bounty escrow and the channel they are put on.

use soroban_sdk::Address;
use vstd::prelude::*;

verus! {

/// The ledger was given its administrator and asset.
#[derive(Debug, PartialEq, Eq)]
pub struct BountyEscrowInitialized {
    pub admin: Address,
    pub token: Address,
    pub timestamp: u64,
}

/// A deposit was taken into custody; `amount` is net of the lock fee.
#[derive(Debug, PartialEq, Eq)]
pub struct FundsLocked {
    pub bounty_id: u64,
    pub amount: i128,
    pub depositor: Address,
    pub deadline: u64,
}

/// A deposit was paid out; `amount` is what the recipient received.
#[derive(Debug, PartialEq, Eq)]
pub struct FundsReleased {
    pub bounty_id: u64,
    pub amount: i128,
    pub recipient: Address,
    pub timestamp: u64,
}

/// A deposit went back to its depositor.
#[derive(Debug, PartialEq, Eq)]
pub struct FundsRefunded {
    pub bounty_id: u64,
    pub amount: i128,
    pub refund_to: Address,
    pub timestamp: u64,
}

/// The operation on which a fee was charged.
#[derive(Clone, Copy, Debug, PartialEq, Eq, Structural)]
pub enum FeeOperationType {
    Lock,
    Release,
}

/// A fee was charged and sent to its recipient.
#[derive(Debug, PartialEq, Eq)]
pub struct FeeCollected {
    pub operation_type: FeeOperationType,
    pub amount: i128,
    pub fee_rate: i128,
    pub recipient: Address,
    pub timestamp: u64,
}

/// The fee configuration changed; the fields are the configuration after
/// the change.
#[derive(Debug, PartialEq, Eq)]
pub struct FeeConfigUpdated {
    pub lock_fee_rate: i128,
    pub release_fee_rate: i128,
    pub fee_recipient: Address,
    pub fee_enabled: bool,
    pub timestamp: u64,
}

/// A record on the audit channel.
#[derive(Debug, PartialEq, Eq)]
pub enum Event {
    Initialized(BountyEscrowInitialized),
    Locked(FundsLocked),
    Released(FundsReleased),
    Refunded(FundsRefunded),
    FeeCollected(FeeCollected),
    FeeConfigUpdated(FeeConfigUpdated),
}

impl Event {
    /// The name under which a record is filed on the channel.
    pub open spec fn topic_of(self) -> Seq<char> {
        match self {
            Event::Initialized(_) => "init"@,
            Event::Locked(_) => "f_lock"@,
            Event::Released(_) => "f_rel"@,
            Event::Refunded(_) => "f_ref"@,
            Event::FeeCollected(_) => "fee"@,
            Event::FeeConfigUpdated(_) => "fee_cfg"@,
        }
    }

    /// The deposit that a record is filed under, beside its name: records
    /// of a lock, a release and a refund name theirs.
    pub open spec fn bounty_of(self) -> Option<u64> {
        match self {
            Event::Locked(event) => Some(event.bounty_id),
            Event::Released(event) => Some(event.bounty_id),
            Event::Refunded(event) => Some(event.bounty_id),
            _ => None,
        }
    }

    /// The name under which the record is filed on the channel.
    pub fn topic(&self) -> (name: &'static str)
        ensures
            name@ == self.topic_of(),
    {
        match self {
            Event::Initialized(_) => "init",
            Event::Locked(_) => "f_lock",
            Event::Released(_) => "f_rel",
            Event::Refunded(_) => "f_ref",
            Event::FeeCollected(_) => "fee",
            Event::FeeConfigUpdated(_) => "fee_cfg",
        }
    }

    /// The deposit that the record is filed under, where it has one.
    pub fn bounty_id(&self) -> (bounty_id: Option<u64>)
        ensures
            bounty_id == self.bounty_of(),
    {
        match self {
            Event::Locked(event) => Some(event.bounty_id),
            Event::Released(event) => Some(event.bounty_id),
            Event::Refunded(event) => Some(event.bounty_id),
            _ => None,
        }
    }
}

/// Appends an initialization record to `channel`.
pub fn emit_bounty_initialized(channel: &mut Vec<Event>, event: BountyEscrowInitialized)
    ensures
        final(channel)@ == old(channel)@.push(Event::Initialized(event)),
{
    channel.push(Event::Initialized(event));
}

/// Appends a funds-locked record to `channel`.
pub fn emit_funds_locked(channel: &mut Vec<Event>, event: FundsLocked)
    ensures
        final(channel)@ == old(channel)@.push(Event::Locked(event)),
{
    channel.push(Event::Locked(event));
}

/// Appends a funds-released record to `channel`.
pub fn emit_funds_released(channel: &mut Vec<Event>, event: FundsReleased)
    ensures
        final(channel)@ == old(channel)@.push(Event::Released(event)),
{
    channel.push(Event::Released(event));
}

/// Appends a funds-refunded record to `channel`.
pub fn emit_funds_refunded(channel: &mut Vec<Event>, event: FundsRefunded)
    ensures
        final(channel)@ == old(channel)@.push(Event::Refunded(event)),
{
    channel.push(Event::Refunded(event));
}

/// Appends a fee-collected record to `channel`.
pub fn emit_fee_collected(channel: &mut Vec<Event>, event: FeeCollected)
    ensures
        final(channel)@ == old(channel)@.push(Event::FeeCollected(event)),
{
    channel.push(Event::FeeCollected(event));
}

/// Appends a fee-configuration record to `channel`.
pub fn emit_fee_config_updated(channel: &mut Vec<Event>, event: FeeConfigUpdated)
    ensures
        final(channel)@ == old(channel)@.push(Event::FeeConfigUpdated(event)),
{
    channel.push(Event::FeeConfigUpdated(event));
}

} // verus!
