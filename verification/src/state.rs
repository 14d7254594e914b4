//! The persistent role registry.
//!
//! A [`RoleStore`] maps opaque byte-string role identifiers to [`RoleData`]
//! records. The host hands a store capability into every operation and
//! commits or discards its writes atomically; the store itself is a plain
//! in-memory association list whose abstraction is the map [`RoleStore::view`].
//! Records are never deleted: membership can shrink to empty, the record
//! persists.

use vstd::prelude::*;

use crate::error::ContractError;
use crate::Bytes;

verus! {

/// Upper bound on relayer membership that dependent modules may enforce.
pub const MAX_RELAYERS: u128 = 200;

/// The reserved relayer role identifier: the bytes of "RELAYER_ROLE".
pub open spec fn spec_relayer_role() -> Seq<u8> {
    seq![82u8, 69u8, 76u8, 65u8, 89u8, 69u8, 82u8, 95u8, 82u8, 79u8, 76u8, 69u8]
}

/// The reserved default admin role identifier: the empty byte string.
pub open spec fn spec_default_admin_role() -> Seq<u8> {
    Seq::empty()
}

/// Returns the default admin role identifier (the empty byte string).
pub fn default_admin_role() -> (r: Bytes)
    ensures
        r@ == spec_default_admin_role(),
{
    Vec::new()
}

/// Returns the relayer role identifier (the bytes of "RELAYER_ROLE").
pub fn relayer_role() -> (r: Bytes)
    ensures
        r@ == spec_relayer_role(),
{
    let mut r: Bytes = Vec::new();
    r.push(82);
    r.push(69);
    r.push(76);
    r.push(65);
    r.push(89);
    r.push(69);
    r.push(82);
    r.push(95);
    r.push(82);
    r.push(79);
    r.push(76);
    r.push(69);
    proof {
        assert(r@ =~= spec_relayer_role());
    }
    r
}

/// Mathematical model of a role record: the member addresses in order, and
/// the identifier of the role whose members administer this one.
#[verifier::ext_equal]
pub struct RoleDataV {
    pub members: Seq<Seq<char>>,
    pub admin_role: Seq<u8>,
}

/// One role record: an ordered member list (duplicates permitted — each
/// grant appends, each revoke removes every occurrence) and the admin role.
pub struct RoleData {
    pub members: Vec<String>,
    pub admin_role: Bytes,
}

impl View for RoleData {
    type V = RoleDataV;

    open spec fn view(&self) -> RoleDataV {
        RoleDataV { members: self.members.deep_view(), admin_role: self.admin_role@ }
    }
}

/// Copies a byte string.
fn clone_bytes(v: &Vec<u8>) -> (r: Vec<u8>)
    ensures
        r@ == v@,
{
    let mut r: Vec<u8> = Vec::new();
    let mut i: usize = 0;
    while i < v.len()
        invariant
            i <= v.len(),
            r@ =~= v@.subrange(0, i as int),
        decreases v.len() - i,
    {
        r.push(v[i]);
        i += 1;
    }
    proof {
        assert(r@ =~= v@);
    }
    r
}

/// Copies a member list.
fn clone_members(v: &Vec<String>) -> (r: Vec<String>)
    ensures
        r@ =~= v@,
        r.deep_view() =~= v.deep_view(),
{
    let mut r: Vec<String> = Vec::new();
    let mut i: usize = 0;
    while i < v.len()
        invariant
            i <= v.len(),
            r@ =~= v@.subrange(0, i as int),
        decreases v.len() - i,
    {
        r.push(v[i].clone());
        i += 1;
    }
    proof {
        assert(r@ =~= v@);
    }
    r
}

impl Clone for RoleData {
    fn clone(&self) -> (r: Self)
        ensures
            r@ == self@,
    {
        let r = RoleData {
            members: clone_members(&self.members),
            admin_role: clone_bytes(&self.admin_role),
        };
        proof {
            assert(r@.members =~= self@.members);
        }
        r
    }
}

/// The member list with every occurrence of `account` removed, other
/// entries kept in order.
pub open spec fn remove_all_members(members: Seq<Seq<char>>, account: Seq<char>) -> Seq<Seq<char>>
    decreases members.len(),
{
    if members.len() == 0 {
        Seq::empty()
    } else {
        let rest = remove_all_members(members.drop_last(), account);
        if members.last() == account {
            rest
        } else {
            rest.push(members.last())
        }
    }
}

/// Whether `account` occurs in the member list.
pub fn contains_account(members: &Vec<String>, account: &String) -> (r: bool)
    ensures
        r == members.deep_view().contains(account@),
{
    let mut i: usize = 0;
    while i < members.len()
        invariant
            i <= members.len(),
            forall|j: int| 0 <= j < i ==> members.deep_view()[j] != account@,
        decreases members.len() - i,
    {
        if members[i] == *account {
            assert(members.deep_view()[i as int] == account@);
            return true;
        }
        i += 1;
    }
    false
}

/// Position of the first occurrence of `account` in the member list, if any.
pub fn find_account(members: &Vec<String>, account: &String) -> (r: Option<usize>)
    ensures
        match r {
            Some(i) => i < members.len() && members.deep_view()[i as int] == account@
                && forall|j: int| 0 <= j < i ==> members.deep_view()[j] != account@,
            None => !members.deep_view().contains(account@),
        },
{
    let mut i: usize = 0;
    while i < members.len()
        invariant
            i <= members.len(),
            forall|j: int| 0 <= j < i ==> members.deep_view()[j] != account@,
        decreases members.len() - i,
    {
        if members[i] == *account {
            return Some(i);
        }
        i += 1;
    }
    None
}

/// A copy of the member list with every occurrence of `account` removed.
pub fn remove_account(members: &Vec<String>, account: &String) -> (r: Vec<String>)
    ensures
        r.deep_view() == remove_all_members(members.deep_view(), account@),
{
    let mut r: Vec<String> = Vec::new();
    let mut i: usize = 0;
    while i < members.len()
        invariant
            i <= members.len(),
            r.deep_view() =~= remove_all_members(members.deep_view().take(i as int), account@),
        decreases members.len() - i,
    {
        let ghost prefix = members.deep_view().take(i as int);
        let ghost next = members.deep_view().take(i + 1 as int);
        proof {
            assert(next.drop_last() =~= prefix);
            assert(next.last() == members.deep_view()[i as int]);
        }
        if members[i] == *account {
            proof {
                assert(remove_all_members(next, account@) =~= remove_all_members(
                    prefix,
                    account@,
                ));
            }
        } else {
            r.push(members[i].clone());
            proof {
                assert(remove_all_members(next, account@) =~= remove_all_members(
                    prefix,
                    account@,
                ).push(members.deep_view()[i as int]));
                assert(r.deep_view() =~= remove_all_members(next, account@));
            }
        }
        i += 1;
    }
    proof {
        assert(members.deep_view().take(members.len() as int) =~= members.deep_view());
    }
    r
}

/// One slot of the association list backing a [`RoleStore`].
struct RoleEntry {
    role: Bytes,
    data: RoleData,
}

/// The mapping a prefix-shadowing association list denotes: a later entry is
/// only visible where no earlier entry carries the same role identifier.
spec fn map_of(s: Seq<RoleEntry>) -> Map<Seq<u8>, RoleDataV>
    decreases s.len(),
{
    if s.len() == 0 {
        Map::empty()
    } else {
        map_of(s.drop_first()).insert(s[0].role@, s[0].data@)
    }
}

proof fn lemma_map_of_found(s: Seq<RoleEntry>, i: int)
    requires
        0 <= i < s.len(),
        forall|j: int| 0 <= j < i ==> s[j].role@ != s[i].role@,
    ensures
        map_of(s).contains_key(s[i].role@),
        map_of(s)[s[i].role@] == s[i].data@,
    decreases s.len(),
{
    if i > 0 {
        assert(forall|j: int| #![trigger s.drop_first()[j]]
            0 <= j < i - 1 ==> s.drop_first()[j].role@ != s.drop_first()[i - 1].role@);
        lemma_map_of_found(s.drop_first(), i - 1);
        assert(s[0].role@ != s[i].role@);
    }
}

proof fn lemma_map_of_absent(s: Seq<RoleEntry>, k: Seq<u8>)
    requires
        forall|j: int| 0 <= j < s.len() ==> s[j].role@ != k,
    ensures
        !map_of(s).contains_key(k),
    decreases s.len(),
{
    if s.len() > 0 {
        assert(forall|j: int| #![trigger s.drop_first()[j]]
            0 <= j < s.drop_first().len() ==> s.drop_first()[j].role@ != k);
        lemma_map_of_absent(s.drop_first(), k);
    }
}

proof fn lemma_map_of_update(s: Seq<RoleEntry>, i: int, e: RoleEntry)
    requires
        0 <= i < s.len(),
        forall|j: int| 0 <= j < i ==> s[j].role@ != s[i].role@,
        e.role@ == s[i].role@,
    ensures
        map_of(s.update(i, e)) == map_of(s).insert(e.role@, e.data@),
    decreases s.len(),
{
    let su = s.update(i, e);
    if i == 0 {
        assert(su.drop_first() =~= s.drop_first());
        assert(map_of(su) == map_of(s.drop_first()).insert(e.role@, e.data@));
        assert(map_of(s).insert(e.role@, e.data@) =~= map_of(s.drop_first()).insert(
            e.role@,
            e.data@,
        ));
    } else {
        assert(forall|j: int| #![trigger s.drop_first()[j]]
            0 <= j < i - 1 ==> s.drop_first()[j].role@ != s.drop_first()[i - 1].role@);
        lemma_map_of_update(s.drop_first(), i - 1, e);
        assert(su.drop_first() =~= s.drop_first().update(i - 1, e));
        assert(su[0].role@ == s[0].role@ && su[0].data@ == s[0].data@);
        assert(s[0].role@ != e.role@);
        assert(map_of(s.drop_first()).insert(e.role@, e.data@).insert(s[0].role@, s[0].data@)
            =~= map_of(s.drop_first()).insert(s[0].role@, s[0].data@).insert(e.role@, e.data@));
    }
}

proof fn lemma_map_of_push(s: Seq<RoleEntry>, e: RoleEntry)
    requires
        forall|j: int| 0 <= j < s.len() ==> s[j].role@ != e.role@,
    ensures
        map_of(s.push(e)) == map_of(s).insert(e.role@, e.data@),
    decreases s.len(),
{
    if s.len() == 0 {
        assert(s.push(e).drop_first() =~= s);
        assert(s.push(e)[0] == e);
        assert(map_of(s.push(e)) == map_of(s).insert(e.role@, e.data@));
    } else {
        assert(forall|j: int| #![trigger s.drop_first()[j]]
            0 <= j < s.drop_first().len() ==> s.drop_first()[j].role@ != e.role@);
        lemma_map_of_push(s.drop_first(), e);
        assert(s.push(e).drop_first() =~= s.drop_first().push(e));
        assert(s.push(e)[0].role@ == s[0].role@ && s.push(e)[0].data@ == s[0].data@);
        assert(s[0].role@ != e.role@);
        assert(map_of(s.drop_first()).insert(e.role@, e.data@).insert(s[0].role@, s[0].data@)
            =~= map_of(s.drop_first()).insert(s[0].role@, s[0].data@).insert(e.role@, e.data@));
    }
}

/// The role registry capability handed into every operation. Abstractly a
/// map from role identifier to role record; a load fails exactly on the
/// identifiers outside the map's domain, and a save is an unconditional
/// upsert.
pub struct RoleStore {
    entries: Vec<RoleEntry>,
}

impl View for RoleStore {
    type V = Map<Seq<u8>, RoleDataV>;

    closed spec fn view(&self) -> Map<Seq<u8>, RoleDataV> {
        map_of(self.entries@)
    }
}

impl RoleStore {
    /// An empty registry, as a fresh deployment starts with.
    pub fn new() -> (r: RoleStore)
        ensures
            r@ == Map::<Seq<u8>, RoleDataV>::empty(),
    {
        let r = RoleStore { entries: Vec::new() };
        proof {
            assert(r@ =~= Map::<Seq<u8>, RoleDataV>::empty());
        }
        r
    }

    /// Position of the first entry recorded under `role`, if any.
    fn find_entry(&self, role: &Bytes) -> (r: Option<usize>)
        ensures
            match r {
                Some(i) => i < self.entries@.len() && self.entries@[i as int].role@ == role@
                    && forall|j: int| 0 <= j < i ==> self.entries@[j].role@ != role@,
                None => forall|j: int|
                    0 <= j < self.entries@.len() ==> self.entries@[j].role@ != role@,
            },
    {
        let mut i: usize = 0;
        while i < self.entries.len()
            invariant
                i <= self.entries@.len(),
                forall|j: int| 0 <= j < i ==> self.entries@[j].role@ != role@,
            decreases self.entries@.len() - i,
        {
            if crate::bytes_eq(&self.entries[i].role, role) {
                return Some(i);
            }
            i += 1;
        }
        None
    }

    /// Reads the record of `role`; fails with `StorageNotFound` exactly when
    /// the role was never created.
    pub fn load(&self, role: &Bytes) -> (r: Result<RoleData, ContractError>)
        ensures
            match r {
                Ok(d) => self@.contains_key(role@) && d@ == self@[role@],
                Err(e) => !self@.contains_key(role@) && e == ContractError::StorageNotFound,
            },
    {
        match self.find_entry(role) {
            Some(i) => {
                let d = self.entries[i].data.clone();
                proof {
                    lemma_map_of_found(self.entries@, i as int);
                }
                Ok(d)
            },
            None => {
                proof {
                    lemma_map_of_absent(self.entries@, role@);
                }
                Err(ContractError::StorageNotFound)
            },
        }
    }

    /// Writes the record of `role`: an unconditional upsert.
    pub fn save(&mut self, role: Bytes, data: RoleData)
        ensures
            final(self)@ == old(self)@.insert(role@, data@),
    {
        let ghost s0 = self.entries@;
        match self.find_entry(&role) {
            Some(i) => {
                self.entries[i] = RoleEntry { role, data };
                proof {
                    lemma_map_of_update(s0, i as int, self.entries@[i as int]);
                    assert(self.entries@ =~= s0.update(i as int, self.entries@[i as int]));
                }
            },
            None => {
                self.entries.push(RoleEntry { role, data });
                proof {
                    lemma_map_of_push(s0, self.entries@.last());
                    assert(self.entries@ =~= s0.push(self.entries@.last()));
                }
            },
        }
    }
}

} // verus!
