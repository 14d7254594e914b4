use access_control::contract::{
    execute, get_role_admin, get_role_member, get_role_member_count, get_role_member_index,
    has_both_admin_relayer_role, has_role, instantiate,
};
use access_control::error::ContractError;
use access_control::msg::{ExecuteMsg, InstantiateMsg, MessageInfo};
use access_control::response::Attribute;
use access_control::state::{default_admin_role, relayer_role, RoleStore};

fn do_instantiate(
    store: &mut RoleStore,
    role_type: Vec<u8>,
    members: Vec<String>,
    admin_role: Vec<u8>,
) {
    let instantiate_msg = InstantiateMsg {
        role_type,
        members,
        admin_role,
    };
    let res = instantiate(store, instantiate_msg).unwrap();
    assert_eq!(0, res.messages.len());
}

#[test]
fn test_grant_role() {
    let mut store = RoleStore::new();

    let addr01 = String::from("addr01");
    do_instantiate(
        &mut store,
        default_admin_role(),
        vec![addr01.clone()],
        default_admin_role(),
    );

    let msg = ExecuteMsg::GrantRole {
        role: default_admin_role(),
        account: addr01.clone(),
    };

    let info = MessageInfo {
        sender: addr01.clone(),
    };
    let res = execute(&mut store, info, msg).unwrap();
    assert_eq!(0, res.messages.len());
    assert_eq!(
        res.attributes,
        vec![
            Attribute {
                key: String::from("action"),
                value: String::from("grant_role")
            },
            Attribute {
                key: String::from("account"),
                value: String::from("addr01")
            },
        ]
    );

    assert!(store
        .load(&default_admin_role())
        .unwrap()
        .members
        .contains(&addr01));
}

#[test]
fn test_revoke_role() {
    let mut store = RoleStore::new();

    let addr01 = String::from("addr01");
    do_instantiate(
        &mut store,
        default_admin_role(),
        vec![addr01.clone()],
        default_admin_role(),
    );

    let msg = ExecuteMsg::RevokeRole {
        role: default_admin_role(),
        account: addr01.clone(),
    };
    let info = MessageInfo {
        sender: addr01.clone(),
    };
    let res = execute(&mut store, info, msg).unwrap();

    assert_eq!(0, res.messages.len());
    assert_eq!(
        res.attributes,
        vec![
            Attribute {
                key: String::from("action"),
                value: String::from("revoke_role")
            },
            Attribute {
                key: String::from("account"),
                value: String::from("addr01")
            },
        ]
    );
    assert!(!store
        .load(&default_admin_role())
        .unwrap()
        .members
        .contains(&addr01));
}

#[test]
fn test_renounce_role() {
    let mut store = RoleStore::new();

    let addr01 = String::from("addr01");
    do_instantiate(
        &mut store,
        default_admin_role(),
        vec![addr01.clone()],
        default_admin_role(),
    );

    let msg = ExecuteMsg::RenounceRole {
        role: default_admin_role(),
        account: addr01.clone(),
    };
    let info = MessageInfo {
        sender: addr01.clone(),
    };
    let res = execute(&mut store, info, msg).unwrap();

    assert_eq!(0, res.messages.len());
    assert_eq!(
        res.attributes,
        vec![
            Attribute {
                key: String::from("action"),
                value: String::from("renounce_role")
            },
            Attribute {
                key: String::from("account"),
                value: String::from("addr01")
            },
        ]
    );
    assert!(!store
        .load(&default_admin_role())
        .unwrap()
        .members
        .contains(&addr01));
}

#[test]
fn test_setup_role() {
    let mut store = RoleStore::new();

    let addr01 = String::from("addr01");
    do_instantiate(
        &mut store,
        default_admin_role(),
        vec![addr01.clone()],
        default_admin_role(),
    );

    let msg = ExecuteMsg::SetupRole {
        role: default_admin_role(),
        account: addr01.clone(),
    };
    let info = MessageInfo {
        sender: addr01.clone(),
    };
    let res = execute(&mut store, info, msg).unwrap();

    assert_eq!(0, res.messages.len());
    assert_eq!(
        res.attributes,
        vec![
            Attribute {
                key: String::from("action"),
                value: String::from("setup_role")
            },
            Attribute {
                key: String::from("account"),
                value: String::from("addr01")
            },
        ]
    );
    assert!(store
        .load(&default_admin_role())
        .unwrap()
        .members
        .contains(&addr01));
}

#[test]
fn test_set_role_admin() {
    let mut store = RoleStore::new();

    let addr01 = String::from("addr01");
    do_instantiate(
        &mut store,
        default_admin_role(),
        vec![addr01.clone()],
        default_admin_role(),
    );

    let msg = ExecuteMsg::SetRoleAdmin {
        role: default_admin_role(),
        admin_role: relayer_role(),
    };
    let info = MessageInfo {
        sender: addr01.clone(),
    };
    let res = execute(&mut store, info, msg).unwrap();

    assert_eq!(0, res.messages.len());
    assert_eq!(
        res.attributes,
        vec![Attribute {
            key: String::from("action"),
            value: String::from("set_role_admin")
        }]
    );
    assert_eq!(
        store.load(&default_admin_role()).unwrap().admin_role,
        relayer_role()
    );
}

#[test]
fn test_instantiate_attributes() {
    let mut store = RoleStore::new();
    let res = instantiate(
        &mut store,
        InstantiateMsg {
            role_type: default_admin_role(),
            members: vec![String::from("addr01")],
            admin_role: default_admin_role(),
        },
    )
    .unwrap();
    assert_eq!(0, res.messages.len());
    assert_eq!(
        res.attributes,
        vec![Attribute {
            key: String::from("action"),
            value: String::from("intantiated")
        }]
    );
}

// A full invocation chain on one deployment: a self-grant duplicates the
// admin entry, an unauthorized grant is rejected, a revoke clears every
// occurrence, and a renounce for someone else is rejected.
#[test]
fn test_admin_lifecycle_scenario() {
    let mut store = RoleStore::new();
    let alice = String::from("alice");
    let bob = String::from("bob");
    do_instantiate(
        &mut store,
        default_admin_role(),
        vec![alice.clone()],
        default_admin_role(),
    );

    // Alice grants herself the default admin role again.
    let res = execute(
        &mut store,
        MessageInfo {
            sender: alice.clone(),
        },
        ExecuteMsg::GrantRole {
            role: default_admin_role(),
            account: alice.clone(),
        },
    );
    assert!(res.is_ok());
    assert_eq!(
        store.load(&default_admin_role()).unwrap().members,
        vec![alice.clone(), alice.clone()]
    );

    // Bob holds no role, so his grant attempt is denied and changes nothing.
    let res = execute(
        &mut store,
        MessageInfo { sender: bob.clone() },
        ExecuteMsg::GrantRole {
            role: default_admin_role(),
            account: bob.clone(),
        },
    );
    assert_eq!(res.unwrap_err(), ContractError::AuthorizationDenied);
    assert_eq!(
        store.load(&default_admin_role()).unwrap().members,
        vec![alice.clone(), alice.clone()]
    );

    // Alice revokes herself: every occurrence disappears.
    let res = execute(
        &mut store,
        MessageInfo {
            sender: alice.clone(),
        },
        ExecuteMsg::RevokeRole {
            role: default_admin_role(),
            account: alice.clone(),
        },
    );
    assert!(res.is_ok());
    assert_eq!(
        store.load(&default_admin_role()).unwrap().members,
        Vec::<String>::new()
    );

    // Alice cannot renounce on Bob's behalf.
    let res = execute(
        &mut store,
        MessageInfo {
            sender: alice.clone(),
        },
        ExecuteMsg::RenounceRole {
            role: default_admin_role(),
            account: bob.clone(),
        },
    );
    assert_eq!(res.unwrap_err(), ContractError::AuthorizationDenied);
}

// On a fresh deployment, reassigning the admin of a never-created role
// creates it with an empty member list and the given admin role.
#[test]
fn test_set_role_admin_creates_missing_role() {
    let mut store = RoleStore::new();
    let res = execute(
        &mut store,
        MessageInfo {
            sender: String::from("anyone"),
        },
        ExecuteMsg::SetRoleAdmin {
            role: relayer_role(),
            admin_role: default_admin_role(),
        },
    );
    assert!(res.is_ok());
    let data = store.load(&relayer_role()).unwrap();
    assert_eq!(data.members, Vec::<String>::new());
    assert_eq!(data.admin_role, default_admin_role());
}

#[test]
fn test_set_role_admin_preserves_members() {
    let mut store = RoleStore::new();
    let alice = String::from("alice");
    let bob = String::from("bob");
    do_instantiate(
        &mut store,
        relayer_role(),
        vec![alice.clone(), bob.clone()],
        default_admin_role(),
    );
    let res = execute(
        &mut store,
        MessageInfo {
            sender: String::from("anyone"),
        },
        ExecuteMsg::SetRoleAdmin {
            role: relayer_role(),
            admin_role: relayer_role(),
        },
    );
    assert!(res.is_ok());
    let data = store.load(&relayer_role()).unwrap();
    assert_eq!(data.members, vec![alice, bob]);
    assert_eq!(data.admin_role, relayer_role());
}

#[test]
fn test_grant_role_missing_role() {
    let mut store = RoleStore::new();
    let alice = String::from("alice");
    do_instantiate(
        &mut store,
        default_admin_role(),
        vec![alice.clone()],
        default_admin_role(),
    );
    let res = execute(
        &mut store,
        MessageInfo {
            sender: alice.clone(),
        },
        ExecuteMsg::GrantRole {
            role: relayer_role(),
            account: alice.clone(),
        },
    );
    assert_eq!(res.unwrap_err(), ContractError::StorageNotFound);
}

#[test]
fn test_grant_twice_count_and_first_index() {
    let mut store = RoleStore::new();
    let alice = String::from("alice");
    let bob = String::from("bob");
    do_instantiate(
        &mut store,
        default_admin_role(),
        vec![alice.clone()],
        default_admin_role(),
    );
    let count0 = get_role_member_count(&store, &default_admin_role()).unwrap();
    for _ in 0..2 {
        execute(
            &mut store,
            MessageInfo {
                sender: alice.clone(),
            },
            ExecuteMsg::GrantRole {
                role: default_admin_role(),
                account: bob.clone(),
            },
        )
        .unwrap();
    }
    let count2 = get_role_member_count(&store, &default_admin_role()).unwrap();
    assert_eq!(count2, count0 + 2);
    assert_eq!(
        get_role_member_index(&store, &default_admin_role(), &bob).unwrap(),
        1
    );
    assert_eq!(
        get_role_member_index(&store, &default_admin_role(), &alice).unwrap(),
        0
    );
}

#[test]
fn test_revoke_absent_is_noop() {
    let mut store = RoleStore::new();
    let alice = String::from("alice");
    let bob = String::from("bob");
    do_instantiate(
        &mut store,
        default_admin_role(),
        vec![alice.clone()],
        default_admin_role(),
    );
    let res = execute(
        &mut store,
        MessageInfo {
            sender: alice.clone(),
        },
        ExecuteMsg::RevokeRole {
            role: default_admin_role(),
            account: bob.clone(),
        },
    );
    assert!(res.is_ok());
    assert_eq!(
        store.load(&default_admin_role()).unwrap().members,
        vec![alice.clone()]
    );
}

#[test]
fn test_renounce_without_prior_grant() {
    let mut store = RoleStore::new();
    let alice = String::from("alice");
    let bob = String::from("bob");
    do_instantiate(
        &mut store,
        default_admin_role(),
        vec![alice.clone()],
        default_admin_role(),
    );
    // Bob renounces for himself although he was never granted: a no-op.
    let res = execute(
        &mut store,
        MessageInfo { sender: bob.clone() },
        ExecuteMsg::RenounceRole {
            role: default_admin_role(),
            account: bob.clone(),
        },
    );
    assert!(res.is_ok());
    assert_eq!(
        store.load(&default_admin_role()).unwrap().members,
        vec![alice.clone()]
    );
}

#[test]
fn test_setup_role_missing_role() {
    let mut store = RoleStore::new();
    let res = execute(
        &mut store,
        MessageInfo {
            sender: String::from("anyone"),
        },
        ExecuteMsg::SetupRole {
            role: relayer_role(),
            account: String::from("anyone"),
        },
    );
    assert_eq!(res.unwrap_err(), ContractError::StorageNotFound);
}

#[test]
fn test_queries_missing_role() {
    let store = RoleStore::new();
    let alice = String::from("alice");
    assert_eq!(
        get_role_member_count(&store, &relayer_role()).unwrap_err(),
        ContractError::StorageNotFound
    );
    assert_eq!(
        get_role_member(&store, &relayer_role(), 0).unwrap_err(),
        ContractError::StorageNotFound
    );
    assert_eq!(
        get_role_member_index(&store, &relayer_role(), &alice).unwrap_err(),
        ContractError::StorageNotFound
    );
    assert_eq!(
        get_role_admin(&store, &relayer_role()).unwrap_err(),
        ContractError::StorageNotFound
    );
    assert_eq!(
        has_role(&store, &relayer_role(), &alice).unwrap_err(),
        ContractError::StorageNotFound
    );
}

#[test]
fn test_get_role_member_out_of_bounds() {
    let mut store = RoleStore::new();
    let alice = String::from("alice");
    do_instantiate(
        &mut store,
        default_admin_role(),
        vec![alice.clone()],
        default_admin_role(),
    );
    assert_eq!(
        get_role_member(&store, &default_admin_role(), 0).unwrap(),
        alice
    );
    assert_eq!(
        get_role_member(&store, &default_admin_role(), 1).unwrap_err(),
        ContractError::IndexOutOfBounds
    );
}

#[test]
fn test_get_role_member_index_absent() {
    let mut store = RoleStore::new();
    let alice = String::from("alice");
    let bob = String::from("bob");
    do_instantiate(
        &mut store,
        default_admin_role(),
        vec![alice.clone()],
        default_admin_role(),
    );
    assert_eq!(
        get_role_member_index(&store, &default_admin_role(), &bob).unwrap_err(),
        ContractError::AddressNotFound
    );
}

#[test]
fn test_has_role() {
    let mut store = RoleStore::new();
    let alice = String::from("alice");
    let bob = String::from("bob");
    do_instantiate(
        &mut store,
        default_admin_role(),
        vec![alice.clone()],
        default_admin_role(),
    );
    assert!(has_role(&store, &default_admin_role(), &alice).unwrap());
    assert!(!has_role(&store, &default_admin_role(), &bob).unwrap());
}

#[test]
fn test_has_both_admin_relayer_role() {
    let mut store = RoleStore::new();
    let alice = String::from("alice");
    let bob = String::from("bob");
    let carol = String::from("carol");

    // Missing default admin record: the query fails.
    assert_eq!(
        has_both_admin_relayer_role(&store, &alice).unwrap_err(),
        ContractError::StorageNotFound
    );

    do_instantiate(
        &mut store,
        default_admin_role(),
        vec![alice.clone()],
        default_admin_role(),
    );

    // An admin member passes even though the relayer record is missing.
    assert!(has_both_admin_relayer_role(&store, &alice).unwrap());

    // A non-member fails while the relayer record is missing.
    assert_eq!(
        has_both_admin_relayer_role(&store, &bob).unwrap_err(),
        ContractError::StorageNotFound
    );

    execute(
        &mut store,
        MessageInfo {
            sender: String::from("anyone"),
        },
        ExecuteMsg::SetRoleAdmin {
            role: relayer_role(),
            admin_role: default_admin_role(),
        },
    )
    .unwrap();
    execute(
        &mut store,
        MessageInfo {
            sender: alice.clone(),
        },
        ExecuteMsg::GrantRole {
            role: relayer_role(),
            account: bob.clone(),
        },
    )
    .unwrap();

    // Membership in either role suffices; membership in neither fails.
    assert!(has_both_admin_relayer_role(&store, &bob).unwrap());
    assert!(!has_both_admin_relayer_role(&store, &carol).unwrap());
}

#[test]
fn test_get_role_admin() {
    let mut store = RoleStore::new();
    let alice = String::from("alice");
    do_instantiate(
        &mut store,
        relayer_role(),
        vec![alice.clone()],
        default_admin_role(),
    );
    assert_eq!(
        get_role_admin(&store, &relayer_role()).unwrap(),
        default_admin_role()
    );
}

#[test]
fn test_error_messages() {
    assert_eq!(
        ContractError::AddressNotFound.message(),
        String::from("Address not found")
    );
    assert_eq!(
        ContractError::SenderNeitherRelayerNorAdmin.message(),
        String::from("Sender is not relayer or admin")
    );
    assert_eq!(
        ContractError::SenderDoesNotHaveAdminRole.message(),
        String::from("Sender doesn't have admin role")
    );
    assert_eq!(
        ContractError::SenderDoesNotHaveRelayerRole.message(),
        String::from("Sender doesn't have relayer role")
    );
}
