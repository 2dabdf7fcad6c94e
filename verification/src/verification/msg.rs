//! Messages of the verifier.

use vstd::prelude::*;

verus! {

#[derive(Clone, Debug, PartialEq, Eq)]
pub enum ExecuteMsg {
    /// Asks whether the step from `current_version` to `new_version` may be
    /// recorded, for the given reason.
    ValidateMigrationMsg { current_version: u32, new_version: u32, reason: String },
}

#[derive(Clone, Debug, PartialEq, Eq)]
pub struct InstantiateMsg {

}

} // verus!
