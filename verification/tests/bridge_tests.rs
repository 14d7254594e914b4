use access_control::bridge::{
    has_voted, only_admin, only_admin_or_relayer, only_relayers, ContractError, Proposal,
    ProposalStatus,
};
use access_control::contract::instantiate;
use access_control::msg::{InstantiateMsg, MessageInfo};
use access_control::state::{default_admin_role, relayer_role, RoleStore};

fn store_with(role: Vec<u8>, members: Vec<String>) -> RoleStore {
    let mut store = RoleStore::new();
    instantiate(
        &mut store,
        InstantiateMsg {
            role_type: role,
            members,
            admin_role: default_admin_role(),
        },
    )
    .unwrap();
    store
}

#[test]
fn test_only_admin() {
    let alice = String::from("alice");
    let bob = String::from("bob");
    let store = store_with(default_admin_role(), vec![alice.clone()]);
    assert!(only_admin(
        &store,
        &MessageInfo {
            sender: alice.clone()
        }
    )
    .is_ok());
    assert_eq!(
        only_admin(&store, &MessageInfo { sender: bob }).unwrap_err(),
        ContractError::AccessControl(
            access_control::error::ContractError::SenderDoesNotHaveAdminRole
        )
    );

    let empty = RoleStore::new();
    assert_eq!(
        only_admin(&empty, &MessageInfo { sender: alice }).unwrap_err(),
        ContractError::AccessControl(access_control::error::ContractError::StorageNotFound)
    );
}

#[test]
fn test_only_relayers() {
    let alice = String::from("alice");
    let bob = String::from("bob");
    let store = store_with(relayer_role(), vec![alice.clone()]);
    assert!(only_relayers(
        &store,
        &MessageInfo {
            sender: alice.clone()
        }
    )
    .is_ok());
    assert_eq!(
        only_relayers(&store, &MessageInfo { sender: bob }).unwrap_err(),
        ContractError::AccessControl(
            access_control::error::ContractError::SenderDoesNotHaveRelayerRole
        )
    );
}

#[test]
fn test_only_admin_or_relayer() {
    let alice = String::from("alice");
    let bob = String::from("bob");
    let carol = String::from("carol");

    let mut store = store_with(default_admin_role(), vec![alice.clone()]);
    instantiate(
        &mut store,
        InstantiateMsg {
            role_type: relayer_role(),
            members: vec![bob.clone()],
            admin_role: default_admin_role(),
        },
    )
    .unwrap();

    assert!(only_admin_or_relayer(
        &store,
        &MessageInfo {
            sender: alice.clone()
        }
    )
    .is_ok());
    assert!(only_admin_or_relayer(&store, &MessageInfo { sender: bob }).is_ok());
    assert_eq!(
        only_admin_or_relayer(&store, &MessageInfo { sender: carol }).unwrap_err(),
        ContractError::AccessControl(
            access_control::error::ContractError::SenderNeitherRelayerNorAdmin
        )
    );

    let empty = RoleStore::new();
    assert_eq!(
        only_admin_or_relayer(&empty, &MessageInfo { sender: alice }).unwrap_err(),
        ContractError::AccessControl(access_control::error::ContractError::StorageNotFound)
    );
}

#[test]
fn test_has_voted() {
    let proposal = Proposal {
        status: ProposalStatus::Active,
        yes_votes: 0,
        yes_votes_total: 0,
        proposed_block: 7,
    };
    assert!(!has_voted(proposal));
    let proposal = Proposal {
        status: ProposalStatus::Active,
        yes_votes: 3,
        yes_votes_total: 2,
        proposed_block: 7,
    };
    assert!(has_voted(proposal));
}
