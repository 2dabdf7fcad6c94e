//! Rejections of the verifier.

use vstd::prelude::*;
use vstd::string::*;
use crate::decimal::{decimal, to_decimal};

verus! {

#[derive(Clone, Debug, PartialEq, Eq)]
pub enum ContractError {
    /// The current version is not below the proposed one.
    AlreadyMigrated { version: u32 },
    /// The reason is not the accepted one.
    InvalidMigrationReason {  },
}

impl ContractError {
    /// The rejection in words.
    pub open spec fn text(&self) -> Seq<char> {
        match *self {
            ContractError::AlreadyMigrated { version } => "Contract already at version "@
                + decimal(version as nat),
            ContractError::InvalidMigrationReason {  } => "Invalid migration reason"@,
        }
    }

    /// The rejection in words, as a caller is shown it.
    pub fn message(&self) -> (s: String)
        ensures
            s@ == self.text(),
    {
        match self {
            ContractError::AlreadyMigrated { version } => {
                let mut s = "Contract already at version ".to_owned();
                s.append(to_decimal(*version as u128).as_str());
                s
            },
            ContractError::InvalidMigrationReason {  } => "Invalid migration reason".to_owned(),
        }
    }
}

} // verus!
