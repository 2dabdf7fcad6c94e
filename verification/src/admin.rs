//! The ledger: admin membership, donation distribution, and the request
//! and commit steps of a verified version migration.

pub mod contract;
pub mod error;
pub mod msg;
pub mod state;
