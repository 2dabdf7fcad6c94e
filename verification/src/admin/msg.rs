//! Messages of the ledger.

use vstd::prelude::*;

verus! {

#[derive(Clone, Debug, PartialEq, Eq)]
pub enum QueryMsg {
    /// Asks for the admins.
    AdminsList {  },
    /// Asks for the recorded version.
    GetVersion {  },
}

#[derive(Clone, Debug, PartialEq, Eq)]
pub struct InstantiateMsg {
    pub admins: Vec<String>,
    pub donation_denom: String,
    pub verifier: String,
}

#[derive(Clone, Debug, PartialEq, Eq)]
pub struct AdminsListResp {
    pub admins: Vec<String>,
}

#[derive(Clone, Debug, PartialEq, Eq)]
pub enum ExecuteMsg {
    /// Admits the given addresses; for admins only.
    AddMembers { admins: Vec<String> },
    /// Removes the caller from the admins.
    Leave {  },
    /// Splits the attached payment among the admins.
    Donate {  },
}

#[derive(Clone, Debug, PartialEq, Eq)]
pub struct MigrateMsg {
    pub reason: String,
}

/// The answer to a query.
#[derive(Clone, Debug, PartialEq, Eq)]
pub enum QueryResp {
    AdminsList(AdminsListResp),
    Version(u32),
}

} // verus!
