//! Custodial token staking: a user deposits fungible tokens into a
//! program-controlled vault account and may later withdraw them, subject to
//! ownership checks. The crate verifies the staking-record lifecycle and the
//! validation/transfer state machine that governs stake and unstake
//! operations against a checked-transfer ledger model.

pub mod errors;
pub mod keys;
pub mod laws;
pub mod ledger;
pub mod orchestrator;
pub mod record;
