//! A single-resource farming game: participants plant a stake, solve a small
//! proof-of-work challenge, and harvest a reward computed from the quality of
//! their work and the time that has passed since planting.
pub mod digest;
pub mod farm;
pub mod laws;
pub mod ledger;
pub mod reward;
