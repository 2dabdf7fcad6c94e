//! A shared, admin-controlled ledger and the stateless verifier that gates
//! its version migrations, as plain state-transition functions over an
//! explicit state value.

pub mod admin;
pub mod decimal;
pub mod host;
pub mod payment;
pub mod verification;
