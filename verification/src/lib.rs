//! Ownership and yield accrual for a fixed inventory of land parcels.
//!
//! Every operation is a function from the records it touches, the caller's
//! identity and the current time to either an error (records untouched) or
//! the new records together with the token instruction that has to be
//! carried out for the operation to take effect. The ledger puts the
//! configuration and the two record stores under one root and keeps them in
//! step.

pub mod address;
pub mod admin;
pub mod claim;
pub mod earnings;
pub mod error;
pub mod history;
pub mod ledger;
pub mod migration;
pub mod purchase;
pub mod schedule;
pub mod state;
pub mod token;
pub mod upgrade;
