//! The verifier: a stateless policy that approves or rejects a proposed
//! version migration.

use vstd::prelude::*;
use crate::host::{empty_response, Response};
use crate::verification::error::ContractError;
use crate::verification::msg::{ExecuteMsg, InstantiateMsg};

pub mod error;
pub mod msg;

verus! {

/// The one reason for which a migration is approved.
pub const ACCEPTED_REASON: &'static str = "bug_fix";

/// The policy: the proposed version lies above the current one, and the
/// reason is the accepted one.
pub open spec fn approves(current_version: u32, new_version: u32, reason: Seq<char>) -> bool {
    current_version < new_version && reason == ACCEPTED_REASON@
}

/// Creates the verifier, which keeps no state.
pub fn instantiate(msg: InstantiateMsg) -> (r: Response)
    ensures
        r@ == empty_response(),
{
    Response::new()
}

/// Decides on one proposed migration. A version that is not below the
/// proposed one is reported first, then a reason other than the accepted one;
/// an approval is the empty response.
pub fn execute(msg: ExecuteMsg) -> (r: Result<Response, ContractError>)
    ensures
        match msg {
            ExecuteMsg::ValidateMigrationMsg { current_version, new_version, reason } => {
                if current_version >= new_version {
                    r == Err::<Response, ContractError>(
                        ContractError::AlreadyMigrated { version: current_version },
                    )
                } else if reason@ != ACCEPTED_REASON@ {
                    r == Err::<Response, ContractError>(ContractError::InvalidMigrationReason {  })
                } else {
                    r is Ok && r->Ok_0@ == empty_response()
                }
            },
        },
        r is Ok <==> approves(
            msg->ValidateMigrationMsg_current_version,
            msg->ValidateMigrationMsg_new_version,
            msg->ValidateMigrationMsg_reason@,
        ),
{
    match msg {
        ExecuteMsg::ValidateMigrationMsg { current_version, new_version, reason } => {
            if current_version >= new_version {
                return Err(ContractError::AlreadyMigrated { version: current_version });
            }
            if reason != ACCEPTED_REASON.to_owned() {
                return Err(ContractError::InvalidMigrationReason {  });
            }
            Ok(Response::new())
        },
    }
}

} // verus!
