//! Payload types of the externally reachable operations.

use vstd::prelude::*;

use crate::Bytes;

verus! {

/// Initialization payload: the deploying party supplies one initial role
/// record, bypassing every authorization check.
pub struct InstantiateMsg {
    /// Identifier of the role record created at deployment.
    pub role_type: Bytes,
    /// The addresses of the initial members.
    pub members: Vec<String>,
    /// The role whose members administer `role_type`.
    pub admin_role: Bytes,
}

/// The tagged union of externally submitted operations.
pub enum ExecuteMsg {
    GrantRole { role: Bytes, account: String },
    RevokeRole { role: Bytes, account: String },
    RenounceRole { role: Bytes, account: String },
    SetupRole { role: Bytes, account: String },
    SetRoleAdmin { role: Bytes, admin_role: Bytes },
}

/// The identity of the sender of an invocation, authenticated by the host
/// before the operation handler runs.
pub struct MessageInfo {
    pub sender: String,
}

} // verus!
