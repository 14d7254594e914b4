//! Error taxonomy of the access-control core.
//!
//! Every operation returns a `Result`; any error aborts the whole invocation
//! and the host discards all prospective writes. Callers can branch on the
//! variant; a human-readable description is available through
//! [`ContractError::message`].

use vstd::prelude::*;

verus! {

/// The reasons an access-control operation can fail.
#[derive(Clone, Copy, Debug, PartialEq, Eq, Structural)]
pub enum ContractError {
    /// The role identifier has no record in the store.
    StorageNotFound,
    /// The sender lacks the required admin membership or self identity.
    AuthorizationDenied,
    /// A member index query reached beyond the member list.
    IndexOutOfBounds,
    /// The account does not occur in the member list.
    AddressNotFound,
    /// The sender is neither a default-admin member nor a relayer.
    SenderNeitherRelayerNorAdmin,
    /// The sender is not a member of the default admin role.
    SenderDoesNotHaveAdminRole,
    /// The sender is not a member of the relayer role.
    SenderDoesNotHaveRelayerRole,
}

impl ContractError {
    /// Human-readable description of the error.
    pub fn message(&self) -> (r: String)
        ensures
            r@ == self.spec_message(),
    {
        match self {
            ContractError::StorageNotFound => String::from_str("Storage entry not found"),
            ContractError::AuthorizationDenied => String::from_str("Authorization denied"),
            ContractError::IndexOutOfBounds => String::from_str("Index out of bounds"),
            ContractError::AddressNotFound => String::from_str("Address not found"),
            ContractError::SenderNeitherRelayerNorAdmin => String::from_str(
                "Sender is not relayer or admin",
            ),
            ContractError::SenderDoesNotHaveAdminRole => String::from_str(
                "Sender doesn't have admin role",
            ),
            ContractError::SenderDoesNotHaveRelayerRole => String::from_str(
                "Sender doesn't have relayer role",
            ),
        }
    }

    /// The description each variant carries.
    pub open spec fn spec_message(self) -> Seq<char> {
        match self {
            ContractError::StorageNotFound => "Storage entry not found"@,
            ContractError::AuthorizationDenied => "Authorization denied"@,
            ContractError::IndexOutOfBounds => "Index out of bounds"@,
            ContractError::AddressNotFound => "Address not found"@,
            ContractError::SenderNeitherRelayerNorAdmin => "Sender is not relayer or admin"@,
            ContractError::SenderDoesNotHaveAdminRole => "Sender doesn't have admin role"@,
            ContractError::SenderDoesNotHaveRelayerRole => "Sender doesn't have relayer role"@,
        }
    }
}

} // verus!
