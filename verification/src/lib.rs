//! Fund custody and settlement: a bounty escrow with one record per deposit,
//! and a program escrow with one pooled balance and a payout history.

pub mod bounty_escrow;
pub mod bounty_laws;
pub mod events;
pub mod fee;
pub mod identity;
pub mod program_escrow;
pub mod program_laws;
pub mod settlement;
