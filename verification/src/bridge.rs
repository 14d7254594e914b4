//! The dependent voting/bridge module: an unimplemented stub whose guards
//! call into the access-control core for authorization. Every core failure
//! crosses the module boundary with its identity intact, so callers can
//! still branch on the error kind rather than on display text.

use vstd::prelude::*;

use crate::msg::MessageInfo;
use crate::state::{default_admin_role, relayer_role, spec_default_admin_role, spec_relayer_role,
    RoleStore};

verus! {

/// A cross-chain proposal tracked by the bridge stub.
#[derive(Clone, Copy, Debug, PartialEq, Eq, Structural)]
pub struct Proposal {
    pub status: ProposalStatus,
    pub yes_votes: u128,
    pub yes_votes_total: u8,
    pub proposed_block: u64,
}

/// The lifecycle of a [`Proposal`].
#[derive(Clone, Copy, Debug, PartialEq, Eq, Structural)]
pub enum ProposalStatus {
    Inactive,
    Active,
    Passed,
    Executed,
    Cancelled,
}

/// The bridge's failure taxonomy.
#[derive(Clone, Copy, Debug, PartialEq, Eq, Structural)]
pub enum ContractError {
    /// A failure reported by the access-control core.
    AccessControl(crate::error::ContractError),
}

/// Guard: passes only a sender that holds the default admin role or the
/// relayer role.
pub fn only_admin_or_relayer(store: &RoleStore, info: &MessageInfo) -> (r: Result<
    (),
    ContractError,
>)
    ensures
        ({
            let m = store@;
            let in_admin = m.contains_key(spec_default_admin_role()) && m[
                spec_default_admin_role()
            ].members.contains(info.sender@);
            let in_relayer = m.contains_key(spec_relayer_role()) && m[
                spec_relayer_role()
            ].members.contains(info.sender@);
            &&& (r is Ok <==> m.contains_key(spec_default_admin_role()) && (in_admin
                || in_relayer))
            &&& (r is Err ==> r->Err_0 == ContractError::AccessControl(
                if !m.contains_key(spec_default_admin_role()) || (!in_admin && !m.contains_key(
                    spec_relayer_role(),
                )) {
                    crate::error::ContractError::StorageNotFound
                } else {
                    crate::error::ContractError::SenderNeitherRelayerNorAdmin
                },
            ))
        }),
{
    match crate::contract::has_both_admin_relayer_role(store, &info.sender) {
        Ok(true) => Ok(()),
        Ok(false) => Err(
            ContractError::AccessControl(
                crate::error::ContractError::SenderNeitherRelayerNorAdmin,
            ),
        ),
        Err(e) => Err(ContractError::AccessControl(e)),
    }
}

/// Guard: passes only a sender that holds the default admin role.
pub fn only_admin(store: &RoleStore, info: &MessageInfo) -> (r: Result<(), ContractError>)
    ensures
        ({
            let m = store@;
            &&& (r is Ok <==> m.contains_key(spec_default_admin_role()) && m[
                spec_default_admin_role()
            ].members.contains(info.sender@))
            &&& (r is Err ==> r->Err_0 == ContractError::AccessControl(
                if !m.contains_key(spec_default_admin_role()) {
                    crate::error::ContractError::StorageNotFound
                } else {
                    crate::error::ContractError::SenderDoesNotHaveAdminRole
                },
            ))
        }),
{
    match crate::contract::has_role(store, &default_admin_role(), &info.sender) {
        Ok(true) => Ok(()),
        Ok(false) => Err(
            ContractError::AccessControl(crate::error::ContractError::SenderDoesNotHaveAdminRole),
        ),
        Err(e) => Err(ContractError::AccessControl(e)),
    }
}

/// Guard: passes only a sender that holds the relayer role.
pub fn only_relayers(store: &RoleStore, info: &MessageInfo) -> (r: Result<(), ContractError>)
    ensures
        ({
            let m = store@;
            &&& (r is Ok <==> m.contains_key(spec_relayer_role()) && m[
                spec_relayer_role()
            ].members.contains(info.sender@))
            &&& (r is Err ==> r->Err_0 == ContractError::AccessControl(
                if !m.contains_key(spec_relayer_role()) {
                    crate::error::ContractError::StorageNotFound
                } else {
                    crate::error::ContractError::SenderDoesNotHaveRelayerRole
                },
            ))
        }),
{
    match crate::contract::has_role(store, &relayer_role(), &info.sender) {
        Ok(true) => Ok(()),
        Ok(false) => Err(
            ContractError::AccessControl(
                crate::error::ContractError::SenderDoesNotHaveRelayerRole,
            ),
        ),
        Err(e) => Err(ContractError::AccessControl(e)),
    }
}

/// Whether any yes vote has been cast on `proposal`.
pub fn has_voted(proposal: Proposal) -> (r: bool)
    ensures
        r == (proposal.yes_votes > 0),
{
    proposal.yes_votes > 0
}

} // verus!
