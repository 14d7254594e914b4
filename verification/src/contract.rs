//! The operation handlers and query helpers of the access-control core.
//!
//! Each handler takes the role-store capability for the current invocation,
//! evaluates its authorization predicate, mutates and re-saves the relevant
//! role record, and returns an outcome describing the effect. Any error
//! leaves the store exactly as it was, so the host can discard the
//! invocation wholesale.
//!
//! Two handlers are deliberately unauthenticated: [`setup_role`] (an escape
//! hatch for already-authorized internal call sites) and [`set_role_admin`].
//! A deployment must restrict their reachability at a higher layer or accept
//! that any sender can seed a role's membership or reassign its admin.

use vstd::prelude::*;

use crate::error::ContractError;
use crate::Bytes;
use crate::msg::{ExecuteMsg, InstantiateMsg, MessageInfo};
use crate::response::Response;
use crate::state::{
    contains_account, default_admin_role, find_account, relayer_role, remove_account,
    remove_all_members, spec_default_admin_role, spec_relayer_role, RoleData, RoleDataV,
    RoleStore,
};

verus! {

/// The abstract state of the role registry: role identifier to role record.
pub type RoleMap = Map<Seq<u8>, RoleDataV>;

/// Whether `sender` may grant or revoke membership in `role`: the records of
/// `role` and of its admin role both exist, and `sender` is a member of the
/// admin role.
pub open spec fn admin_authorized(m: RoleMap, sender: Seq<char>, role: Seq<u8>) -> bool {
    &&& m.contains_key(role)
    &&& m.contains_key(m[role].admin_role)
    &&& m[m[role].admin_role].members.contains(sender)
}

/// The error a failed grant or revoke reports: a missing record aborts with
/// `StorageNotFound` before the membership test can deny authorization.
pub open spec fn admin_denied_error(m: RoleMap, role: Seq<u8>) -> ContractError {
    if m.contains_key(role) && m.contains_key(m[role].admin_role) {
        ContractError::AuthorizationDenied
    } else {
        ContractError::StorageNotFound
    }
}

/// The registry after `account` is appended to the member list of `role`.
/// Repeated additions accumulate duplicate entries.
pub open spec fn with_member_added(m: RoleMap, role: Seq<u8>, account: Seq<char>) -> RoleMap {
    m.insert(
        role,
        RoleDataV { members: m[role].members.push(account), admin_role: m[role].admin_role },
    )
}

/// The registry after every occurrence of `account` is removed from the
/// member list of `role`.
pub open spec fn with_member_removed(m: RoleMap, role: Seq<u8>, account: Seq<char>) -> RoleMap {
    m.insert(
        role,
        RoleDataV {
            members: remove_all_members(m[role].members, account),
            admin_role: m[role].admin_role,
        },
    )
}

/// An outcome with no messages whose attributes are exactly `action` and
/// `account`.
pub open spec fn action_account_attributes(
    resp: Response,
    action: Seq<char>,
    account: Seq<char>,
) -> bool {
    &&& resp.messages@.len() == 0
    &&& resp.attributes@.len() == 2
    &&& resp.attributes@[0].key@ == "action"@
    &&& resp.attributes@[0].value@ == action
    &&& resp.attributes@[1].key@ == "account"@
    &&& resp.attributes@[1].value@ == account
}

/// An outcome with no messages whose single attribute is `action`.
pub open spec fn action_attribute(resp: Response, action: Seq<char>) -> bool {
    &&& resp.messages@.len() == 0
    &&& resp.attributes@.len() == 1
    &&& resp.attributes@[0].key@ == "action"@
    &&& resp.attributes@[0].value@ == action
}

/// Everything [`grant_role`] promises, relating the registry before (`m0`)
/// and after (`m1`) the call to its result.
pub open spec fn grant_role_post(
    m0: RoleMap,
    m1: RoleMap,
    sender: Seq<char>,
    role: Seq<u8>,
    account: Seq<char>,
    r: Result<Response, ContractError>,
) -> bool {
    &&& (r is Ok <==> admin_authorized(m0, sender, role))
    &&& (r is Ok ==> m1 == with_member_added(m0, role, account) && action_account_attributes(
        r->Ok_0,
        "grant_role"@,
        account,
    ))
    &&& (r is Err ==> m1 == m0 && r->Err_0 == admin_denied_error(m0, role))
}

/// Everything [`revoke_role`] promises.
pub open spec fn revoke_role_post(
    m0: RoleMap,
    m1: RoleMap,
    sender: Seq<char>,
    role: Seq<u8>,
    account: Seq<char>,
    r: Result<Response, ContractError>,
) -> bool {
    &&& (r is Ok <==> admin_authorized(m0, sender, role))
    &&& (r is Ok ==> m1 == with_member_removed(m0, role, account) && action_account_attributes(
        r->Ok_0,
        "revoke_role"@,
        account,
    ))
    &&& (r is Err ==> m1 == m0 && r->Err_0 == admin_denied_error(m0, role))
}

/// Everything [`renounce_role`] promises: authorization is self-referential,
/// the sender's admin standing is irrelevant.
pub open spec fn renounce_role_post(
    m0: RoleMap,
    m1: RoleMap,
    sender: Seq<char>,
    role: Seq<u8>,
    account: Seq<char>,
    r: Result<Response, ContractError>,
) -> bool {
    &&& (r is Ok <==> sender == account && m0.contains_key(role))
    &&& (r is Ok ==> m1 == with_member_removed(m0, role, account) && action_account_attributes(
        r->Ok_0,
        "renounce_role"@,
        account,
    ))
    &&& (r is Err ==> m1 == m0 && r->Err_0 == (if sender != account {
        ContractError::AuthorizationDenied
    } else {
        ContractError::StorageNotFound
    }))
}

/// Everything [`setup_role`] promises: no authorization check of any kind.
pub open spec fn setup_role_post(
    m0: RoleMap,
    m1: RoleMap,
    role: Seq<u8>,
    account: Seq<char>,
    r: Result<Response, ContractError>,
) -> bool {
    &&& (r is Ok <==> m0.contains_key(role))
    &&& (r is Ok ==> m1 == with_member_added(m0, role, account) && action_account_attributes(
        r->Ok_0,
        "setup_role"@,
        account,
    ))
    &&& (r is Err ==> m1 == m0 && r->Err_0 == ContractError::StorageNotFound)
}

/// Everything [`set_role_admin`] promises: it never fails, tolerates a
/// missing role (creating it with an empty member list), preserves an
/// existing member list, and requires no authorization.
pub open spec fn set_role_admin_post(
    m0: RoleMap,
    m1: RoleMap,
    role: Seq<u8>,
    admin_role: Seq<u8>,
    r: Result<Response, ContractError>,
) -> bool {
    &&& r is Ok
    &&& m1 == m0.insert(
        role,
        RoleDataV {
            members: if m0.contains_key(role) {
                m0[role].members
            } else {
                Seq::empty()
            },
            admin_role: admin_role,
        },
    )
    &&& action_attribute(r->Ok_0, "set_role_admin"@)
}

/// Creates the initial role record, bypassing every authorization check:
/// it runs once, at module deployment, invoked by the deploying identity.
pub fn instantiate(store: &mut RoleStore, msg: InstantiateMsg) -> (r: Result<
    Response,
    ContractError,
>)
    ensures
        r is Ok,
        final(store)@ == old(store)@.insert(
            msg.role_type@,
            RoleDataV { members: msg.members.deep_view(), admin_role: msg.admin_role@ },
        ),
        action_attribute(r->Ok_0, "intantiated"@),
{
    let data = RoleData { members: msg.members, admin_role: msg.admin_role };
    store.save(msg.role_type, data);
    Ok(Response::new().add_attribute("action", String::from_str("intantiated")))
}

/// Dispatches one externally submitted operation to its handler.
pub fn execute(store: &mut RoleStore, info: MessageInfo, msg: ExecuteMsg) -> (r: Result<
    Response,
    ContractError,
>)
    ensures
        match msg {
            ExecuteMsg::GrantRole { role, account } => grant_role_post(
                old(store)@,
                final(store)@,
                info.sender@,
                role@,
                account@,
                r,
            ),
            ExecuteMsg::RevokeRole { role, account } => revoke_role_post(
                old(store)@,
                final(store)@,
                info.sender@,
                role@,
                account@,
                r,
            ),
            ExecuteMsg::RenounceRole { role, account } => renounce_role_post(
                old(store)@,
                final(store)@,
                info.sender@,
                role@,
                account@,
                r,
            ),
            ExecuteMsg::SetupRole { role, account } => setup_role_post(
                old(store)@,
                final(store)@,
                role@,
                account@,
                r,
            ),
            ExecuteMsg::SetRoleAdmin { role, admin_role } => set_role_admin_post(
                old(store)@,
                final(store)@,
                role@,
                admin_role@,
                r,
            ),
        },
{
    match msg {
        ExecuteMsg::GrantRole { role, account } => grant_role(store, info, role, account),
        ExecuteMsg::RevokeRole { role, account } => revoke_role(store, info, role, account),
        ExecuteMsg::RenounceRole { role, account } => renounce_role(store, info, role, account),
        ExecuteMsg::SetupRole { role, account } => setup_role(store, role, account),
        ExecuteMsg::SetRoleAdmin { role, admin_role } => set_role_admin(store, role, admin_role),
    }
}

/// Grants `role` to `account`: appends the account to the member list (no
/// existence check — repeated grants accumulate duplicate entries). The
/// sender must be a member of `role`'s admin role.
pub fn grant_role(store: &mut RoleStore, info: MessageInfo, role: Bytes, account: String) -> (r:
    Result<Response, ContractError>)
    ensures
        grant_role_post(old(store)@, final(store)@, info.sender@, role@, account@, r),
{
    let mut data = match store.load(&role) {
        Ok(d) => d,
        Err(e) => { return Err(e) },
    };
    let admin_data = match store.load(&data.admin_role) {
        Ok(d) => d,
        Err(e) => { return Err(e) },
    };
    if !contains_account(&admin_data.members, &info.sender) {
        return Err(ContractError::AuthorizationDenied);
    }
    let attr_account = account.clone();
    let ghost members0 = data.members.deep_view();
    data.members.push(account);
    proof {
        assert(data.members.deep_view() =~= members0.push(account@));
    }
    store.save(role, data);
    Ok(
        Response::new().add_attribute("action", String::from_str("grant_role")).add_attribute(
            "account",
            attr_account,
        ),
    )
}

/// Revokes `role` from `account`: removes every occurrence of the account
/// from the member list; a no-op if the account is absent. The sender must
/// be a member of `role`'s admin role.
pub fn revoke_role(store: &mut RoleStore, info: MessageInfo, role: Bytes, account: String) -> (r:
    Result<Response, ContractError>)
    ensures
        revoke_role_post(old(store)@, final(store)@, info.sender@, role@, account@, r),
{
    let data = match store.load(&role) {
        Ok(d) => d,
        Err(e) => { return Err(e) },
    };
    let admin_data = match store.load(&data.admin_role) {
        Ok(d) => d,
        Err(e) => { return Err(e) },
    };
    if !contains_account(&admin_data.members, &info.sender) {
        return Err(ContractError::AuthorizationDenied);
    }
    let members = remove_account(&data.members, &account);
    store.save(role, RoleData { members, admin_role: data.admin_role });
    Ok(
        Response::new().add_attribute("action", String::from_str("revoke_role")).add_attribute(
            "account",
            account,
        ),
    )
}

/// Renounces `role` for `account`: the sender must be the account itself;
/// admin standing is irrelevant. Removes every occurrence of the account.
pub fn renounce_role(store: &mut RoleStore, info: MessageInfo, role: Bytes, account: String) -> (
    r: Result<Response, ContractError>)
    ensures
        renounce_role_post(old(store)@, final(store)@, info.sender@, role@, account@, r),
{
    if !(account == info.sender) {
        return Err(ContractError::AuthorizationDenied);
    }
    let data = match store.load(&role) {
        Ok(d) => d,
        Err(e) => { return Err(e) },
    };
    let members = remove_account(&data.members, &account);
    store.save(role, RoleData { members, admin_role: data.admin_role });
    Ok(
        Response::new().add_attribute("action", String::from_str("renounce_role")).add_attribute(
            "account",
            account,
        ),
    )
}

/// Grants `role` to `account` with no authorization check of any kind: the
/// escape hatch for already-authorized internal call sites, which must
/// enforce their own access checks before invoking it.
pub fn setup_role(store: &mut RoleStore, role: Bytes, account: String) -> (r: Result<
    Response,
    ContractError,
>)
    ensures
        setup_role_post(old(store)@, final(store)@, role@, account@, r),
{
    let mut data = match store.load(&role) {
        Ok(d) => d,
        Err(e) => { return Err(e) },
    };
    let attr_account = account.clone();
    let ghost members0 = data.members.deep_view();
    data.members.push(account);
    proof {
        assert(data.members.deep_view() =~= members0.push(account@));
    }
    store.save(role, data);
    Ok(
        Response::new().add_attribute("action", String::from_str("setup_role")).add_attribute(
            "account",
            attr_account,
        ),
    )
}

/// Sets `admin_role` as `role`'s admin role, creating the role with an
/// empty member list if it does not exist, and preserving the member list
/// unchanged if it does. No authorization check.
pub fn set_role_admin(store: &mut RoleStore, role: Bytes, admin_role: Bytes) -> (r: Result<
    Response,
    ContractError,
>)
    ensures
        set_role_admin_post(old(store)@, final(store)@, role@, admin_role@, r),
{
    let members: Vec<String> = match store.load(&role) {
        Ok(d) => d.members,
        Err(_) => Vec::new(),
    };
    proof {
        if !old(store)@.contains_key(role@) {
            assert(members.deep_view() =~= Seq::<Seq<char>>::empty());
        }
    }
    store.save(role, RoleData { members, admin_role });
    Ok(Response::new().add_attribute("action", String::from_str("set_role_admin")))
}

/// Whether `account` has been granted `role`.
pub fn has_role(store: &RoleStore, role: &Bytes, account: &String) -> (r: Result<
    bool,
    ContractError,
>)
    ensures
        match r {
            Ok(b) => store@.contains_key(role@) && b == store@[role@].members.contains(account@),
            Err(e) => !store@.contains_key(role@) && e == ContractError::StorageNotFound,
        },
{
    match store.load(role) {
        Ok(d) => Ok(contains_account(&d.members, account)),
        Err(e) => Err(e),
    }
}

/// Whether `account` is a member of the default admin role or of the relayer
/// role (a logical or, despite what the name suggests). The relayer record
/// is only consulted when the default-admin record does not list `account`.
pub fn has_both_admin_relayer_role(store: &RoleStore, account: &String) -> (r: Result<
    bool,
    ContractError,
>)
    ensures
        match r {
            Ok(b) => store@.contains_key(spec_default_admin_role()) && (if store@[
                spec_default_admin_role()
            ].members.contains(account@) {
                b == true
            } else {
                store@.contains_key(spec_relayer_role()) && b == store@[
                    spec_relayer_role()
                ].members.contains(account@)
            }),
            Err(e) => e == ContractError::StorageNotFound && (!store@.contains_key(
                spec_default_admin_role(),
            ) || (!store@[spec_default_admin_role()].members.contains(account@)
                && !store@.contains_key(spec_relayer_role()))),
        },
{
    let admin_data = match store.load(&default_admin_role()) {
        Ok(d) => d,
        Err(e) => { return Err(e) },
    };
    if contains_account(&admin_data.members, account) {
        return Ok(true);
    }
    let relayer_data = match store.load(&relayer_role()) {
        Ok(d) => d,
        Err(e) => { return Err(e) },
    };
    Ok(contains_account(&relayer_data.members, account))
}

/// The number of accounts that hold `role` (duplicates counted); usable with
/// [`get_role_member`] to enumerate all bearers.
pub fn get_role_member_count(store: &RoleStore, role: &Bytes) -> (r: Result<
    usize,
    ContractError,
>)
    ensures
        match r {
            Ok(n) => store@.contains_key(role@) && n == store@[role@].members.len(),
            Err(e) => !store@.contains_key(role@) && e == ContractError::StorageNotFound,
        },
{
    match store.load(role) {
        Ok(d) => Ok(d.members.len()),
        Err(e) => Err(e),
    }
}

/// The member of `role` at position `index`. Member order is insertion
/// order, and is not stable across removals of earlier entries.
pub fn get_role_member(store: &RoleStore, role: &Bytes, index: usize) -> (r: Result<
    String,
    ContractError,
>)
    ensures
        match r {
            Ok(s) => store@.contains_key(role@) && index < store@[role@].members.len() && s@
                == store@[role@].members[index as int],
            Err(e) => if !store@.contains_key(role@) {
                e == ContractError::StorageNotFound
            } else {
                index >= store@[role@].members.len() && e == ContractError::IndexOutOfBounds
            },
        },
{
    let data = match store.load(role) {
        Ok(d) => d,
        Err(e) => { return Err(e) },
    };
    if index < data.members.len() {
        Ok(data.members[index].clone())
    } else {
        Err(ContractError::IndexOutOfBounds)
    }
}

/// Whether `i` is the position of the first occurrence of `account`.
pub open spec fn first_occurrence(members: Seq<Seq<char>>, account: Seq<char>, i: int) -> bool {
    &&& 0 <= i < members.len()
    &&& members[i] == account
    &&& forall|j: int| 0 <= j < i ==> members[j] != account
}

/// The position of the first occurrence of `account` in `role`'s member
/// list.
pub fn get_role_member_index(store: &RoleStore, role: &Bytes, account: &String) -> (r: Result<
    usize,
    ContractError,
>)
    ensures
        match r {
            Ok(i) => store@.contains_key(role@) && first_occurrence(
                store@[role@].members,
                account@,
                i as int,
            ),
            Err(e) => if !store@.contains_key(role@) {
                e == ContractError::StorageNotFound
            } else {
                !store@[role@].members.contains(account@) && e == ContractError::AddressNotFound
            },
        },
{
    let data = match store.load(role) {
        Ok(d) => d,
        Err(e) => { return Err(e) },
    };
    match find_account(&data.members, account) {
        Some(i) => Ok(i),
        None => Err(ContractError::AddressNotFound),
    }
}

/// Law: granting the same role to the same account twice while authorized
/// appends the account twice. The second grant is still authorized for the
/// same sender, the member count grows by exactly two, and the position of
/// the first occurrence of the account is unchanged — or becomes the old
/// length where the account was absent before.
pub proof fn lemma_grant_role_twice(
    m: RoleMap,
    sender: Seq<char>,
    role: Seq<u8>,
    account: Seq<char>,
)
    requires
        admin_authorized(m, sender, role),
    ensures
        admin_authorized(with_member_added(m, role, account), sender, role),
        ({
            let m2 = with_member_added(with_member_added(m, role, account), role, account);
            &&& m2[role].members == m[role].members.push(account).push(account)
            &&& m2[role].members.len() == m[role].members.len() + 2
            &&& forall|i: int| first_occurrence(m[role].members, account, i)
                ==> first_occurrence(m2[role].members, account, i)
            &&& !m[role].members.contains(account) ==> first_occurrence(
                m2[role].members,
                account,
                m[role].members.len() as int,
            )
        }),
{
    let m1 = with_member_added(m, role, account);
    let admin = m[role].admin_role;
    if admin == role {
        let i = m[admin].members.lemma_contains_to_index(sender);
        assert(m1[admin].members[i] == sender);
        assert(m1[admin].members.contains(sender));
    }
    let m2 = with_member_added(m1, role, account);
    let ms0 = m[role].members;
    let ms2 = m2[role].members;
    assert(ms2 =~= ms0.push(account).push(account));
    assert forall|i: int| first_occurrence(ms0, account, i) implies first_occurrence(
        ms2,
        account,
        i,
    ) by {
        assert(ms2[i] == ms0[i]);
        assert(forall|j: int| 0 <= j < i ==> ms2[j] == ms0[j]);
    }
    if !ms0.contains(account) {
        assert forall|j: int| 0 <= j < ms0.len() implies ms2[j] != account by {
            if ms0[j] == account {
                assert(ms0.contains(account));
            }
            assert(ms2[j] == ms0[j]);
        }
        assert(ms2[ms0.len() as int] == account);
    }
}

/// Law: removing every occurrence of an account really removes the account,
/// and changes no other account's membership.
pub proof fn lemma_remove_all_members_membership(
    members: Seq<Seq<char>>,
    account: Seq<char>,
    other: Seq<char>,
)
    ensures
        !remove_all_members(members, account).contains(account),
        other != account ==> remove_all_members(members, account).contains(other)
            == members.contains(other),
    decreases members.len(),
{
    broadcast use vstd::seq_lib::lemma_seq_contains_after_push;

    if members.len() > 0 {
        let pre = members.drop_last();
        let last = members.last();
        lemma_remove_all_members_membership(pre, account, other);
        assert(members =~= pre.push(last));
    } else {
        assert(remove_all_members(members, account) =~= Seq::<Seq<char>>::empty());
    }
}

/// Law: removing an account that does not occur leaves the member list as it
/// was.
pub proof fn lemma_remove_all_members_absent(members: Seq<Seq<char>>, account: Seq<char>)
    requires
        !members.contains(account),
    ensures
        remove_all_members(members, account) == members,
    decreases members.len(),
{
    if members.len() > 0 {
        let pre = members.drop_last();
        let last = members.last();
        assert forall|j: int| 0 <= j < pre.len() implies pre[j] != account by {
            if pre[j] == account {
                assert(members[j] == account);
                assert(members.contains(account));
            }
        }
        lemma_remove_all_members_absent(pre, account);
        if last == account {
            assert(members.contains(account));
        }
        assert(remove_all_members(members, account) =~= pre.push(last));
        assert(pre.push(last) =~= members);
    } else {
        assert(remove_all_members(members, account) =~= members);
    }
}

/// Law: revoking or renouncing a role for an account that is absent is a
/// no-op on the whole registry.
pub proof fn lemma_revoke_absent_noop(m: RoleMap, role: Seq<u8>, account: Seq<char>)
    requires
        m.contains_key(role),
        !m[role].members.contains(account),
    ensures
        with_member_removed(m, role, account) == m,
{
    lemma_remove_all_members_absent(m[role].members, account);
    assert(RoleDataV {
        members: remove_all_members(m[role].members, account),
        admin_role: m[role].admin_role,
    } =~= m[role]);
    assert(with_member_removed(m, role, account) =~= m);
}

/// The admin role that controls `role`; change it with [`set_role_admin`].
pub fn get_role_admin(store: &RoleStore, role: &Bytes) -> (r: Result<Bytes, ContractError>)
    ensures
        match r {
            Ok(v) => store@.contains_key(role@) && v@ == store@[role@].admin_role,
            Err(e) => !store@.contains_key(role@) && e == ContractError::StorageNotFound,
        },
{
    match store.load(role) {
        Ok(d) => Ok(d.admin_role),
        Err(e) => Err(e),
    }
}

} // verus!
