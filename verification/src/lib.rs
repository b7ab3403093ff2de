//! Ledger logic of a rotating savings association (a "chit fund").
//!
//! A bounded group of participants pays into a shared pot. The administrator
//! closes a round, draws one participant who has not won yet, and reopens the
//! collection. The host supplies the authenticated caller, the attached value
//! and the draw seed; the fund decides what happens and returns the
//! notification to deliver.

pub mod account;
pub mod events;
pub mod model;
pub mod fund;
pub mod laws;
