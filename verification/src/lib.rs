//! Role-based access control for on-ledger modules.
//!
//! Named roles (opaque byte-string identifiers) each carry an ordered member
//! list and a designated admin role whose members may grant or revoke
//! membership. The role registry is held in a [`state::RoleStore`] capability
//! that the host passes into every operation, so the same verified logic runs
//! against any storage backend the host provides.

use vstd::prelude::*;

pub mod bridge;
pub mod contract;
pub mod error;
pub mod msg;
pub mod response;
pub mod state;

pub use crate::error::ContractError;
pub use crate::state::{default_admin_role, relayer_role, RoleData, RoleStore, MAX_RELAYERS};

verus! {

/// Opaque byte-string role identifier.
pub type Bytes = Vec<u8>;

/// Compares two byte strings for equality.
pub fn bytes_eq(a: &Vec<u8>, b: &Vec<u8>) -> (r: bool)
    ensures
        r == (a@ == b@),
{
    if a.len() != b.len() {
        return false;
    }
    let mut i: usize = 0;
    while i < a.len()
        invariant
            a.len() == b.len(),
            i <= a.len(),
            forall|j: int| 0 <= j < i ==> a@[j] == b@[j],
        decreases a.len() - i,
    {
        if a[i] != b[i] {
            return false;
        }
        i += 1;
    }
    proof {
        assert(a@ =~= b@);
    }
    true
}

} // verus!
