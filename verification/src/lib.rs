//! A minimal claim-approval state machine: a single medical-insurance claim
//! can be submitted once and approved once by a caller matching the supplied
//! admin identity. The store keeps at most one claim, and its approval flag
//! only ever moves from `false` to `true`.

pub mod contract;
pub mod error;
pub mod msg;
pub mod response;
pub mod state;
