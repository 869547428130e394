//! A rotating savings and credit association ("fund cycle").
//!
//! A fixed cohort of participants each post collateral, then take turns
//! receiving a pooled payout in a fixed round-robin order, contingent on
//! having paid a recurring contribution. This crate holds the cycle state
//! machine: the records, the operations that mutate them under precondition
//! checks, and the properties the rules guarantee. The surrounding ledger
//! (account storage, signature checks, the actual value transfers, the
//! clock) is the caller's concern: operations take the authorized caller
//! identity and the current time as plain values, and report the amounts
//! to be transferred.

pub mod error;
pub mod state;
pub mod ops;
pub mod cycle;
pub mod laws;
