//! Verified core of the LiquiFact invoice escrow: the escrow state machine,
//! its funding, settlement, refund and governance rules, the pro-rata payout
//! arithmetic and the token-transfer safety checks.
pub mod error;
pub mod types;
pub mod address;
pub mod rules;
pub mod payout;
pub mod token;
pub mod setvec;
pub mod model;
pub mod invariants;
pub mod escrow;
pub mod lifecycle;
pub mod governance;
pub mod queries;
pub mod laws;
