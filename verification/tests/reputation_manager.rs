use dactp::address::{Address, Auth};
use dactp::error::{Error, ErrorKind};
use dactp::reputation_manager::{
    apply_delta, check_approval, check_caller, ReputationManagerContract, DEFAULT_SCORE,
    MAX_SCORE, MIN_SCORE,
};

struct Setup {
    ledger: ReputationManagerContract,
    admin: Address,
    caller: Address,
    agent: Address,
    auth: Auth,
}

fn approved_ledger() -> Setup {
    let mut ledger = ReputationManagerContract::new();
    let admin = Address::new("admin");
    let caller = Address::new("caller");
    let agent = Address::new("agent");
    let mut auth = Auth::signed_by(&admin);
    auth.add(&caller);
    assert_eq!(ledger.initialize(&auth, admin.clone()), Ok(()));
    assert_eq!(ledger.approve_caller(&auth, &admin, caller.clone()), Ok(()));
    Setup { ledger, admin, caller, agent, auth }
}

#[test]
fn test_default_score() {
    let ledger = ReputationManagerContract::new();
    let agent = Address::new("agent");
    assert_eq!(ledger.get_score(&agent), 50);
}

#[test]
fn test_update_score() {
    let Setup { mut ledger, caller, agent, auth, .. } = approved_ledger();

    assert_eq!(ledger.get_score(&agent), 50);

    assert_eq!(ledger.update_score(&auth, &caller, &agent, 5), Ok(()));
    assert_eq!(ledger.get_score(&agent), 55);

    assert_eq!(ledger.update_score(&auth, &caller, &agent, -15), Ok(()));
    assert_eq!(ledger.get_score(&agent), 40);
}

#[test]
fn test_score_bounds() {
    let Setup { mut ledger, caller, agent, auth, .. } = approved_ledger();

    assert_eq!(ledger.update_score(&auth, &caller, &agent, 100), Ok(()));
    assert_eq!(ledger.get_score(&agent), 100);

    assert_eq!(ledger.update_score(&auth, &caller, &agent, -200), Ok(()));
    assert_eq!(ledger.get_score(&agent), 0);
}

#[test]
fn test_negative_delta_handling() {
    let Setup { mut ledger, caller, agent, auth, .. } = approved_ledger();

    assert_eq!(ledger.get_score(&agent), 50);

    assert_eq!(ledger.update_score(&auth, &caller, &agent, -25), Ok(()));
    assert_eq!(ledger.get_score(&agent), 25);

    assert_eq!(ledger.update_score(&auth, &caller, &agent, -25), Ok(()));
    assert_eq!(ledger.get_score(&agent), 0);

    assert_eq!(ledger.update_score(&auth, &caller, &agent, -10), Ok(()));
    assert_eq!(ledger.get_score(&agent), 0);
}

#[test]
fn test_freeze_reputation() {
    let Setup { mut ledger, caller, agent, auth, .. } = approved_ledger();

    assert_eq!(ledger.update_score(&auth, &caller, &agent, 30), Ok(()));
    assert_eq!(ledger.get_score(&agent), 80);

    assert_eq!(ledger.freeze_reputation(&auth, &caller, &agent), Ok(()));
    assert_eq!(ledger.get_score(&agent), 0);
}

#[test]
fn score_constants() {
    assert_eq!(MIN_SCORE, 0);
    assert_eq!(MAX_SCORE, 100);
    assert_eq!(DEFAULT_SCORE, 50);
}

#[test]
fn update_stops_exactly_at_both_ends() {
    let Setup { mut ledger, caller, agent, auth, .. } = approved_ledger();

    // From 10, a delta of -200 gives exactly 0.
    ledger.update_score(&auth, &caller, &agent, -40).unwrap();
    assert_eq!(ledger.get_score(&agent), 10);
    ledger.update_score(&auth, &caller, &agent, -200).unwrap();
    assert_eq!(ledger.get_score(&agent), 0);

    // From 95, a delta of +100 gives exactly 100.
    ledger.update_score(&auth, &caller, &agent, 95).unwrap();
    assert_eq!(ledger.get_score(&agent), 95);
    ledger.update_score(&auth, &caller, &agent, 100).unwrap();
    assert_eq!(ledger.get_score(&agent), 100);

    // One step inside each end.
    ledger.update_score(&auth, &caller, &agent, -1).unwrap();
    assert_eq!(ledger.get_score(&agent), 99);
    ledger.update_score(&auth, &caller, &agent, 1).unwrap();
    assert_eq!(ledger.get_score(&agent), 100);
    ledger.update_score(&auth, &caller, &agent, -99).unwrap();
    assert_eq!(ledger.get_score(&agent), 1);
    ledger.update_score(&auth, &caller, &agent, -1).unwrap();
    assert_eq!(ledger.get_score(&agent), 0);
}

#[test]
fn the_largest_deltas_do_not_wrap() {
    let Setup { mut ledger, caller, agent, auth, .. } = approved_ledger();
    ledger.update_score(&auth, &caller, &agent, i32::MAX).unwrap();
    assert_eq!(ledger.get_score(&agent), 100);
    ledger.update_score(&auth, &caller, &agent, i32::MIN).unwrap();
    assert_eq!(ledger.get_score(&agent), 0);
    ledger.update_score(&auth, &caller, &agent, i32::MAX).unwrap();
    assert_eq!(ledger.get_score(&agent), 100);
    ledger.update_score(&auth, &caller, &agent, 0).unwrap();
    assert_eq!(ledger.get_score(&agent), 100);
}

#[test]
fn apply_delta_is_the_sum_brought_into_range() {
    assert_eq!(apply_delta(10, -200), 0);
    assert_eq!(apply_delta(95, 100), 100);
    assert_eq!(apply_delta(50, 8), 58);
    assert_eq!(apply_delta(50, 12), 62);
    assert_eq!(apply_delta(50, -5), 45);
    assert_eq!(apply_delta(50, -25), 25);
    assert_eq!(apply_delta(0, 0), 0);
    assert_eq!(apply_delta(100, 0), 100);
    assert_eq!(apply_delta(0, -1), 0);
    assert_eq!(apply_delta(100, 1), 100);
    assert_eq!(apply_delta(0, 100), 100);
    assert_eq!(apply_delta(100, -100), 0);
    assert_eq!(apply_delta(0, i32::MIN), 0);
    assert_eq!(apply_delta(100, i32::MAX), 100);
    assert_eq!(apply_delta(u32::MAX, i32::MIN), 100);
    assert_eq!(apply_delta(u32::MAX, i32::MAX), 100);
    for score in 0..=100u32 {
        for delta in -150..=150i32 {
            let sum = score as i64 + delta as i64;
            let expected = sum.clamp(0, 100) as u32;
            assert_eq!(apply_delta(score, delta), expected);
        }
    }
}

#[test]
fn update_by_a_caller_that_is_not_approved_is_unauthorized() {
    let Setup { mut ledger, agent, .. } = approved_ledger();
    let stranger = Address::new("stranger");
    let outcome = ledger.update_score(&Auth::signed_by(&stranger), &stranger, &agent, 5);
    assert_eq!(outcome, Err(Error::Unauthorized));
    assert_eq!(Error::Unauthorized.kind(), ErrorKind::Unauthorized);
    assert_eq!(ledger.get_score(&agent), 50);
    assert!(!ledger.is_approved(&stranger));
}

#[test]
fn update_without_the_callers_signature_is_unauthorized() {
    let Setup { mut ledger, caller, agent, admin, .. } = approved_ledger();
    assert_eq!(ledger.update_score(&Auth::none(), &caller, &agent, 5), Err(Error::Unauthorized));
    assert_eq!(
        ledger.update_score(&Auth::signed_by(&admin), &caller, &agent, 5),
        Err(Error::Unauthorized)
    );
    assert_eq!(ledger.get_score(&agent), 50);
}

#[test]
fn freeze_needs_an_approved_caller_that_signed() {
    let Setup { mut ledger, caller, agent, auth, .. } = approved_ledger();
    let stranger = Address::new("stranger");
    ledger.update_score(&auth, &caller, &agent, 20).unwrap();
    assert_eq!(
        ledger.freeze_reputation(&Auth::signed_by(&stranger), &stranger, &agent),
        Err(Error::Unauthorized)
    );
    assert_eq!(ledger.freeze_reputation(&Auth::none(), &caller, &agent), Err(Error::Unauthorized));
    assert_eq!(ledger.get_score(&agent), 70);
    assert_eq!(ledger.freeze_reputation(&auth, &caller, &agent), Ok(()));
    assert_eq!(ledger.get_score(&agent), 0);
    // A frozen score can be earned back.
    ledger.update_score(&auth, &caller, &agent, 8).unwrap();
    assert_eq!(ledger.get_score(&agent), 8);
}

#[test]
fn freeze_of_an_agent_without_a_score_records_zero() {
    let Setup { mut ledger, caller, agent, auth, .. } = approved_ledger();
    assert_eq!(ledger.freeze_reputation(&auth, &caller, &agent), Ok(()));
    assert_eq!(ledger.get_score(&agent), 0);
}

#[test]
fn scores_of_other_agents_are_not_touched() {
    let Setup { mut ledger, caller, agent, auth, .. } = approved_ledger();
    let other = Address::new("other");
    ledger.update_score(&auth, &caller, &agent, 7).unwrap();
    assert_eq!(ledger.get_score(&agent), 57);
    assert_eq!(ledger.get_score(&other), 50);
    ledger.freeze_reputation(&auth, &caller, &other).unwrap();
    assert_eq!(ledger.get_score(&agent), 57);
    assert_eq!(ledger.get_score(&other), 0);
}

#[test]
fn ledger_setup_needs_the_admins_signature() {
    let mut ledger = ReputationManagerContract::new();
    let admin = Address::new("admin");
    let caller = Address::new("caller");
    assert_eq!(ledger.initialize(&Auth::none(), admin.clone()), Err(Error::Unauthorized));
    assert_eq!(
        ledger.initialize(&Auth::signed_by(&caller), admin.clone()),
        Err(Error::Unauthorized)
    );
    // Nothing was stored: the ledger is still not set up.
    assert_eq!(
        ledger.approve_caller(&Auth::signed_by(&admin), &admin, caller.clone()),
        Err(Error::NotInitialized)
    );
}

#[test]
fn approve_before_setup_is_not_initialized() {
    let mut ledger = ReputationManagerContract::new();
    let admin = Address::new("admin");
    let caller = Address::new("caller");
    let outcome = ledger.approve_caller(&Auth::signed_by(&admin), &admin, caller.clone());
    assert_eq!(outcome, Err(Error::NotInitialized));
    assert_eq!(Error::NotInitialized.kind(), ErrorKind::NotInitialized);
    assert!(!ledger.is_approved(&caller));
}

#[test]
fn approve_by_somebody_else_is_unauthorized() {
    let Setup { mut ledger, admin, .. } = approved_ledger();
    let stranger = Address::new("stranger");
    let wanted = Address::new("wanted");
    assert_eq!(
        ledger.approve_caller(&Auth::signed_by(&stranger), &stranger, wanted.clone()),
        Err(Error::Unauthorized)
    );
    assert_eq!(
        ledger.approve_caller(&Auth::none(), &admin, wanted.clone()),
        Err(Error::Unauthorized)
    );
    assert_eq!(
        ledger.approve_caller(&Auth::signed_by(&stranger), &admin, wanted.clone()),
        Err(Error::Unauthorized)
    );
    assert!(!ledger.is_approved(&wanted));
}

#[test]
fn approving_twice_changes_nothing() {
    let Setup { mut ledger, admin, caller, agent, auth } = approved_ledger();
    assert_eq!(ledger.approve_caller(&auth, &admin, caller.clone()), Ok(()));
    assert!(ledger.is_approved(&caller));
    assert_eq!(ledger.update_score(&auth, &caller, &agent, 1), Ok(()));
    assert_eq!(ledger.get_score(&agent), 51);
}

#[test]
fn a_second_setup_replaces_the_admin() {
    let Setup { mut ledger, admin, caller, .. } = approved_ledger();
    let next_admin = Address::new("next admin");
    let wanted = Address::new("wanted");
    assert_eq!(ledger.initialize(&Auth::signed_by(&next_admin), next_admin.clone()), Ok(()));
    assert_eq!(
        ledger.approve_caller(&Auth::signed_by(&admin), &admin, wanted.clone()),
        Err(Error::Unauthorized)
    );
    assert_eq!(
        ledger.approve_caller(&Auth::signed_by(&next_admin), &next_admin, wanted.clone()),
        Ok(())
    );
    assert!(ledger.is_approved(&wanted));
    // Callers that were approved before stay approved.
    assert!(ledger.is_approved(&caller));
}

#[test]
fn approval_is_decided_by_signature_setup_and_admin() {
    let admin = Address::new("admin");
    let other = Address::new("other");
    let signed = Auth::signed_by(&admin);
    assert_eq!(check_approval(Some(&admin), &signed, &admin), Ok(()));
    assert_eq!(check_approval(None, &signed, &admin), Err(Error::NotInitialized));
    assert_eq!(check_approval(None, &Auth::none(), &admin), Err(Error::Unauthorized));
    assert_eq!(check_approval(Some(&admin), &Auth::none(), &admin), Err(Error::Unauthorized));
    assert_eq!(check_approval(Some(&other), &signed, &admin), Err(Error::Unauthorized));
    assert_eq!(check_approval(Some(&admin), &signed, &other), Err(Error::Unauthorized));
}

#[test]
fn a_caller_needs_its_signature_and_its_approval() {
    let caller = Address::new("caller");
    let signed = Auth::signed_by(&caller);
    assert_eq!(check_caller(&signed, &caller, true), Ok(()));
    assert_eq!(check_caller(&signed, &caller, false), Err(Error::Unauthorized));
    assert_eq!(check_caller(&Auth::none(), &caller, true), Err(Error::Unauthorized));
    assert_eq!(check_caller(&Auth::none(), &caller, false), Err(Error::Unauthorized));
}
