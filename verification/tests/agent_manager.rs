use dactp::address::{Address, Auth};
use dactp::agent_manager::{
    check_authorized, register_record, revoke_record, AgentInfo, AgentManagerContract,
};
use dactp::error::{Error, ErrorKind};

fn scopes(names: &[&str]) -> Vec<String> {
    names.iter().map(|name| name.to_string()).collect()
}

#[test]
fn test_register_and_check_agent() {
    let mut registry = AgentManagerContract::new();
    let owner = Address::new("owner");
    let agent = Address::new("agent");
    let auth = Auth::signed_by(&owner);

    let registered =
        registry.register_agent(&auth, owner.clone(), agent.clone(), scopes(&["repay_loan"]), 1000);
    assert_eq!(registered, Ok(()));

    assert!(registry.is_authorized(&agent, "repay_loan", 500));
    assert!(!registry.is_authorized(&agent, "repay_loan", 2000));
    assert!(!registry.is_authorized(&agent, "borrow", 100));
}

#[test]
fn test_revoke_agent() {
    let mut registry = AgentManagerContract::new();
    let owner = Address::new("owner");
    let agent = Address::new("agent");
    let auth = Auth::signed_by(&owner);

    let registered =
        registry.register_agent(&auth, owner.clone(), agent.clone(), scopes(&["repay_loan"]), 1000);
    assert_eq!(registered, Ok(()));
    assert!(registry.is_authorized(&agent, "repay_loan", 500));

    assert_eq!(registry.revoke_agent(&auth, &owner, &agent), Ok(()));
    assert!(!registry.is_authorized(&agent, "repay_loan", 500));
}

#[test]
fn unknown_agent_is_not_authorized() {
    let registry = AgentManagerContract::new();
    let agent = Address::new("nobody");
    assert!(!registry.is_authorized(&agent, "borrow", 0));
    assert_eq!(registry.get_agent_info(&agent), None);
}

#[test]
fn amount_at_the_bound_is_authorized_and_one_above_is_not() {
    let mut registry = AgentManagerContract::new();
    let owner = Address::new("owner");
    let agent = Address::new("agent");
    let auth = Auth::signed_by(&owner);
    registry
        .register_agent(&auth, owner.clone(), agent.clone(), scopes(&["borrow"]), 1000)
        .unwrap();
    assert!(registry.is_authorized(&agent, "borrow", 0));
    assert!(registry.is_authorized(&agent, "borrow", 1000));
    assert!(!registry.is_authorized(&agent, "borrow", 1001));
    assert!(!registry.is_authorized(&agent, "borrow", u64::MAX));
}

#[test]
fn scopes_match_letter_for_letter_in_any_order() {
    let mut registry = AgentManagerContract::new();
    let owner = Address::new("owner");
    let first = Address::new("first");
    let second = Address::new("second");
    let auth = Auth::signed_by(&owner);
    registry
        .register_agent(&auth, owner.clone(), first.clone(), scopes(&["borrow", "repay_loan"]), 10)
        .unwrap();
    registry
        .register_agent(&auth, owner.clone(), second.clone(), scopes(&["repay_loan", "borrow"]), 10)
        .unwrap();
    for agent in [&first, &second] {
        assert!(registry.is_authorized(agent, "borrow", 10));
        assert!(registry.is_authorized(agent, "repay_loan", 10));
        assert!(!registry.is_authorized(agent, "Borrow", 10));
        assert!(!registry.is_authorized(agent, "borrow ", 10));
        assert!(!registry.is_authorized(agent, "borro", 10));
        assert!(!registry.is_authorized(agent, "", 10));
    }
}

#[test]
fn agent_without_scopes_is_never_authorized() {
    let mut registry = AgentManagerContract::new();
    let owner = Address::new("owner");
    let agent = Address::new("agent");
    let auth = Auth::signed_by(&owner);
    registry.register_agent(&auth, owner.clone(), agent.clone(), Vec::new(), 10).unwrap();
    assert!(!registry.is_authorized(&agent, "borrow", 1));
    assert!(!registry.is_authorized(&agent, "", 1));
}

#[test]
fn register_needs_the_owner_among_the_signers() {
    let mut registry = AgentManagerContract::new();
    let owner = Address::new("owner");
    let agent = Address::new("agent");
    let stranger = Address::new("stranger");

    let unsigned =
        registry.register_agent(&Auth::none(), owner.clone(), agent.clone(), scopes(&["borrow"]), 5);
    assert_eq!(unsigned, Err(Error::Unauthorized));
    let by_stranger = registry.register_agent(
        &Auth::signed_by(&stranger),
        owner.clone(),
        agent.clone(),
        scopes(&["borrow"]),
        5,
    );
    assert_eq!(by_stranger, Err(Error::Unauthorized));
    assert_eq!(registry.get_agent_info(&agent), None);
    assert!(!registry.is_authorized(&agent, "borrow", 1));
}

#[test]
fn get_agent_info_returns_what_was_registered() {
    let mut registry = AgentManagerContract::new();
    let owner = Address::new("owner");
    let agent = Address::new("agent");
    let auth = Auth::signed_by(&owner);
    registry
        .register_agent(&auth, owner.clone(), agent.clone(), scopes(&["borrow", "repay_loan"]), 77)
        .unwrap();
    let info = registry.get_agent_info(&agent).unwrap();
    assert_eq!(
        info,
        AgentInfo {
            owner: owner.clone(),
            scopes: scopes(&["borrow", "repay_loan"]),
            max_amount: 77,
            revoked: false,
        }
    );
    assert_eq!(registry.get_agent_info(&owner), None);
}

#[test]
fn revoke_of_an_unknown_agent_is_not_found() {
    let mut registry = AgentManagerContract::new();
    let owner = Address::new("owner");
    let agent = Address::new("agent");
    let outcome = registry.revoke_agent(&Auth::signed_by(&owner), &owner, &agent);
    assert_eq!(outcome, Err(Error::NotFound));
    assert_eq!(Error::NotFound.kind(), ErrorKind::NotFound);
}

#[test]
fn revoke_by_another_owner_is_unauthorized() {
    let mut registry = AgentManagerContract::new();
    let owner = Address::new("owner");
    let other = Address::new("other");
    let agent = Address::new("agent");
    registry
        .register_agent(
            &Auth::signed_by(&owner),
            owner.clone(),
            agent.clone(),
            scopes(&["borrow"]),
            10,
        )
        .unwrap();
    let outcome = registry.revoke_agent(&Auth::signed_by(&other), &other, &agent);
    assert_eq!(outcome, Err(Error::Unauthorized));
    assert!(registry.is_authorized(&agent, "borrow", 10));
    assert!(!registry.get_agent_info(&agent).unwrap().revoked);
}

#[test]
fn revoke_without_the_owners_signature_is_unauthorized() {
    let mut registry = AgentManagerContract::new();
    let owner = Address::new("owner");
    let other = Address::new("other");
    let agent = Address::new("agent");
    registry
        .register_agent(
            &Auth::signed_by(&owner),
            owner.clone(),
            agent.clone(),
            scopes(&["borrow"]),
            10,
        )
        .unwrap();
    assert_eq!(registry.revoke_agent(&Auth::none(), &owner, &agent), Err(Error::Unauthorized));
    assert_eq!(
        registry.revoke_agent(&Auth::signed_by(&other), &owner, &agent),
        Err(Error::Unauthorized)
    );
    // The signature is asked for before the record is looked up.
    let unknown = Address::new("unknown");
    assert_eq!(registry.revoke_agent(&Auth::none(), &owner, &unknown), Err(Error::Unauthorized));
    assert!(registry.is_authorized(&agent, "borrow", 10));
}

#[test]
fn revocation_keeps_the_rest_of_the_record_and_stays() {
    let mut registry = AgentManagerContract::new();
    let owner = Address::new("owner");
    let agent = Address::new("agent");
    let auth = Auth::signed_by(&owner);
    registry
        .register_agent(&auth, owner.clone(), agent.clone(), scopes(&["borrow"]), 10)
        .unwrap();
    assert_eq!(registry.revoke_agent(&auth, &owner, &agent), Ok(()));
    let info = registry.get_agent_info(&agent).unwrap();
    assert_eq!(
        info,
        AgentInfo {
            owner: owner.clone(),
            scopes: scopes(&["borrow"]),
            max_amount: 10,
            revoked: true,
        }
    );
    assert_eq!(registry.revoke_agent(&auth, &owner, &agent), Ok(()));
    assert!(registry.get_agent_info(&agent).unwrap().revoked);
    assert!(!registry.is_authorized(&agent, "borrow", 0));
}

#[test]
fn registering_again_replaces_the_record_and_its_revocation() {
    let mut registry = AgentManagerContract::new();
    let owner = Address::new("owner");
    let next_owner = Address::new("next owner");
    let agent = Address::new("agent");
    let auth = Auth::signed_by(&owner);
    registry
        .register_agent(&auth, owner.clone(), agent.clone(), scopes(&["borrow"]), 10)
        .unwrap();
    registry.revoke_agent(&auth, &owner, &agent).unwrap();
    assert!(!registry.is_authorized(&agent, "borrow", 5));

    registry
        .register_agent(
            &Auth::signed_by(&next_owner),
            next_owner.clone(),
            agent.clone(),
            scopes(&["repay_loan"]),
            20,
        )
        .unwrap();
    assert!(registry.is_authorized(&agent, "repay_loan", 20));
    assert!(!registry.is_authorized(&agent, "borrow", 5));
    let info = registry.get_agent_info(&agent).unwrap();
    assert_eq!(info.owner, next_owner);
    assert!(!info.revoked);
    // The first owner has lost the agent.
    assert_eq!(registry.revoke_agent(&auth, &owner, &agent), Err(Error::Unauthorized));
}

#[test]
fn one_agent_does_not_touch_another() {
    let mut registry = AgentManagerContract::new();
    let owner = Address::new("owner");
    let first = Address::new("first");
    let second = Address::new("second");
    let auth = Auth::signed_by(&owner);
    registry
        .register_agent(&auth, owner.clone(), first.clone(), scopes(&["borrow"]), 10)
        .unwrap();
    registry
        .register_agent(&auth, owner.clone(), second.clone(), scopes(&["repay_loan"]), 20)
        .unwrap();
    registry.revoke_agent(&auth, &owner, &first).unwrap();
    assert!(!registry.is_authorized(&first, "borrow", 10));
    assert!(registry.is_authorized(&second, "repay_loan", 20));
    assert!(!registry.is_authorized(&second, "borrow", 10));
}

#[test]
fn a_record_permits_what_the_registry_authorizes() {
    let info = AgentInfo {
        owner: Address::new("owner"),
        scopes: scopes(&["repay_loan"]),
        max_amount: 1000,
        revoked: false,
    };
    assert!(info.permits("repay_loan", 500));
    assert!(info.permits("repay_loan", 1000));
    assert!(!info.permits("repay_loan", 2000));
    assert!(!info.permits("borrow", 100));
    let revoked = AgentInfo { revoked: true, ..info.clone() };
    assert!(!revoked.permits("repay_loan", 500));
}

#[test]
fn an_empty_slot_authorizes_nothing() {
    let info = AgentInfo {
        owner: Address::new("owner"),
        scopes: scopes(&["borrow"]),
        max_amount: 10,
        revoked: false,
    };
    assert!(!check_authorized(None, "borrow", 0));
    assert!(check_authorized(Some(&info), "borrow", 10));
    assert!(!check_authorized(Some(&info), "borrow", 11));
    assert!(!check_authorized(Some(&info), "repay_loan", 10));
}

#[test]
fn a_record_is_revoked_by_its_owner_alone() {
    let owner = Address::new("owner");
    let other = Address::new("other");
    let info = AgentInfo {
        owner: owner.clone(),
        scopes: scopes(&["borrow"]),
        max_amount: 10,
        revoked: false,
    };
    let signed = Auth::signed_by(&owner);
    assert_eq!(revoke_record(None, &signed, &owner), Err(Error::NotFound));
    assert_eq!(revoke_record(None, &Auth::none(), &owner), Err(Error::Unauthorized));
    assert_eq!(revoke_record(Some(&info), &Auth::none(), &owner), Err(Error::Unauthorized));
    assert_eq!(
        revoke_record(Some(&info), &Auth::signed_by(&other), &other),
        Err(Error::Unauthorized)
    );
    assert_eq!(
        revoke_record(Some(&info), &signed, &owner),
        Ok(AgentInfo {
            owner: owner.clone(),
            scopes: scopes(&["borrow"]),
            max_amount: 10,
            revoked: true,
        })
    );
}

#[test]
fn a_registration_stores_a_record_that_is_not_revoked() {
    let owner = Address::new("owner");
    let signed = Auth::signed_by(&owner);
    assert_eq!(
        register_record(&signed, owner.clone(), scopes(&["borrow", "repay_loan"]), 9),
        Ok(AgentInfo {
            owner: owner.clone(),
            scopes: scopes(&["borrow", "repay_loan"]),
            max_amount: 9,
            revoked: false,
        })
    );
    assert_eq!(
        register_record(&Auth::none(), owner.clone(), scopes(&["borrow"]), 9),
        Err(Error::Unauthorized)
    );
}
