//! Failures of the ledger's commands.

use vstd::prelude::*;
use vstd::string::*;
use crate::decimal::{decimal, to_decimal};
use crate::host::StdError;
use crate::payment::PaymentError;

verus! {

#[derive(Clone, Debug, PartialEq, Eq)]
pub enum ContractError {
    /// A failure of the host's standard kind.
    StdError(StdError),
    /// The caller is no admin.
    Unauthorized { sender: String },
    /// The attached funds were not accepted.
    Payment(PaymentError),
    /// The address is an admin already.
    AdminExists { admin: String },
    /// The current version is not below the proposed one.
    AlreadyMigrated { version: u32 },
    /// The reason is not the accepted one.
    InvalidMigrationReason {  },
    UnknownExecuteAction,
    /// A donation arrived while there is no admin to receive a share.
    NoAdmins,
}

impl ContractError {
    /// The failure in words.
    pub open spec fn text(&self) -> Seq<char> {
        match *self {
            ContractError::StdError(e) => e.text(),
            ContractError::Unauthorized { sender } => sender@ + " is not contract admin"@,
            ContractError::Payment(e) => "Payment error: "@ + e.text(),
            ContractError::AdminExists { admin } => admin@ + " is already an admin"@,
            ContractError::AlreadyMigrated { version } => "Contract already at version "@
                + decimal(version as nat),
            ContractError::InvalidMigrationReason {  } => "Invalid migration reason"@,
            ContractError::UnknownExecuteAction => "Unknown execute action"@,
            ContractError::NoAdmins => "No admins to share the donation"@,
        }
    }

    /// The failure in words, as a caller is shown it.
    pub fn message(&self) -> (s: String)
        ensures
            s@ == self.text(),
    {
        match self {
            ContractError::StdError(e) => e.message(),
            ContractError::Unauthorized { sender } => {
                let mut s = sender.clone();
                s.append(" is not contract admin");
                s
            },
            ContractError::Payment(e) => {
                let mut s = "Payment error: ".to_owned();
                s.append(e.message().as_str());
                s
            },
            ContractError::AdminExists { admin } => {
                let mut s = admin.clone();
                s.append(" is already an admin");
                s
            },
            ContractError::AlreadyMigrated { version } => {
                let mut s = "Contract already at version ".to_owned();
                s.append(to_decimal(*version as u128).as_str());
                s
            },
            ContractError::InvalidMigrationReason {  } => "Invalid migration reason".to_owned(),
            ContractError::UnknownExecuteAction => "Unknown execute action".to_owned(),
            ContractError::NoAdmins => "No admins to share the donation".to_owned(),
        }
    }
}

} // verus!
