//! Authorization core of a vote-locking escrow program: escrow creation,
//! the governance-gated whitelist of programs that may act on an owner's
//! escrow through nested calls, and the check that consults it.

pub mod pubkey;
pub mod derivation;
pub mod state;
pub mod new_escrow;
pub mod whitelist;
