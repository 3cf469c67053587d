//! The write stage of a validator's transaction pipeline: the point at which
//! entries become part of the ledger and are handed on for broadcast.

pub mod entry;
pub mod metrics;
pub mod round;
pub mod round_laws;
pub mod stage;
pub mod stage_laws;
