use vault_orchestrator::error::OrchestratorError;
use vault_orchestrator::identity_map::IdentityMap;
use vault_orchestrator::limiter::RateLimiter;
use vault_orchestrator::orchestrator::{Deposit, Orchestrator, Placement, TOP_UP_CYCLES};
use vault_orchestrator::pool::{CapacityAction, PoolManager};
use vault_orchestrator::principal::Principal;

const SECOND: u64 = 1_000_000_000;

fn id(byte: u8) -> Principal {
    Principal::from_slice(&[byte]).unwrap()
}

/// An orchestrator with the shared unit 100 as its free unit.
fn with_free_unit() -> Orchestrator {
    let mut o = Orchestrator::new();
    o.register_shared_unit(id(100));
    o
}

#[test]
fn fresh_orchestrator_is_empty() {
    let o = Orchestrator::new();
    assert!(o.list_known_units().is_empty());
    assert_eq!(o.free_unit(), None);
    assert_eq!(o.lookup_owned_unit(&id(1)), None);
    assert_eq!(o.get_shared_unit(&id(1)), None);
    assert_eq!(o.min_create_interval(), 5 * SECOND);
    assert_eq!(Orchestrator::with_interval(7).min_create_interval(), 7);
}

#[test]
fn dedicated_unit_is_provisioned_then_returned() {
    let mut o = Orchestrator::new();
    assert_eq!(o.get_or_create_dedicated_unit(id(1), 10 * SECOND), Ok(Placement::Provision));
    assert_eq!(o.lookup_owned_unit(&id(1)), None);
    assert_eq!(o.commit_dedicated_unit(id(1), id(50)), Ok(id(50)));
    assert_eq!(o.lookup_owned_unit(&id(1)), Some(id(50)));
    assert_eq!(
        o.get_or_create_dedicated_unit(id(1), 10 * SECOND),
        Ok(Placement::Existing(id(50)))
    );
    assert_eq!(
        o.get_or_create_dedicated_unit(id(1), 11 * SECOND),
        Ok(Placement::Existing(id(50)))
    );
}

#[test]
fn dedicated_requests_are_rate_limited() {
    let mut o = Orchestrator::new();
    assert_eq!(o.get_or_create_dedicated_unit(id(1), 10 * SECOND), Ok(Placement::Provision));
    assert_eq!(
        o.get_or_create_dedicated_unit(id(1), 15 * SECOND - 1),
        Err(OrchestratorError::RateLimited)
    );
    assert_eq!(o.get_or_create_dedicated_unit(id(1), 15 * SECOND), Ok(Placement::Provision));
    assert_eq!(
        o.get_or_create_dedicated_unit(id(1), 16 * SECOND),
        Err(OrchestratorError::RateLimited)
    );
    assert_eq!(o.get_or_create_dedicated_unit(id(2), 16 * SECOND), Ok(Placement::Provision));
}

#[test]
fn failed_provisioning_still_uses_the_slot() {
    let mut o = Orchestrator::new();
    assert_eq!(o.get_or_create_dedicated_unit(id(1), 10 * SECOND), Ok(Placement::Provision));
    // nothing is committed: the provisioning failed
    assert_eq!(o.lookup_owned_unit(&id(1)), None);
    assert_eq!(o.ledger_entries(), vec![(id(1), 10 * SECOND)]);
    assert_eq!(
        o.get_or_create_dedicated_unit(id(1), 11 * SECOND),
        Err(OrchestratorError::RateLimited)
    );
}

#[test]
fn commit_keeps_the_first_dedicated_unit() {
    let mut o = Orchestrator::new();
    assert_eq!(o.commit_dedicated_unit(id(1), id(50)), Ok(id(50)));
    assert_eq!(o.commit_dedicated_unit(id(1), id(51)), Ok(id(50)));
    assert_eq!(o.lookup_owned_unit(&id(1)), Some(id(50)));
    assert_eq!(o.owner_entries(), vec![(id(1), id(50))]);
}

#[test]
fn commit_refuses_a_unit_that_is_owned() {
    let mut o = Orchestrator::new();
    assert_eq!(o.commit_dedicated_unit(id(1), id(50)), Ok(id(50)));
    assert_eq!(o.commit_dedicated_unit(id(2), id(50)), Err(OrchestratorError::PlatformError));
    assert_eq!(o.lookup_owned_unit(&id(2)), None);
}

#[test]
fn a_tenant_may_ask_for_a_dedicated_unit() {
    let mut o = with_free_unit();
    assert_eq!(o.get_or_create_shared_unit(id(1), 0), Ok(Placement::Assigned(id(100))));
    assert_eq!(o.get_or_create_dedicated_unit(id(1), 10 * SECOND), Ok(Placement::Provision));
    assert_eq!(o.commit_dedicated_unit(id(1), id(50)), Ok(id(50)));
    assert_eq!(o.lookup_owned_unit(&id(1)), Some(id(50)));
    assert_eq!(o.get_shared_unit(&id(1)), Some(id(100)));
    assert_eq!(o.ledger_entries(), vec![(id(1), 10 * SECOND)]);
}

#[test]
fn an_owner_is_placed_in_the_free_unit() {
    let mut o = Orchestrator::new();
    assert_eq!(o.commit_dedicated_unit(id(1), id(50)), Ok(id(50)));
    o.register_shared_unit(id(100));
    assert_eq!(o.get_or_create_shared_unit(id(1), 0), Ok(Placement::Assigned(id(100))));
    assert_eq!(o.tenant_entries(), vec![(id(1), id(100))]);
    assert_eq!(o.lookup_owned_unit(&id(1)), Some(id(50)));
}

#[test]
fn an_owner_is_registered_by_a_known_unit() {
    let mut o = Orchestrator::new();
    assert_eq!(o.commit_dedicated_unit(id(1), id(50)), Ok(id(50)));
    o.register_shared_unit(id(100));
    assert_eq!(o.register_shared_user(id(100), id(1)), Ok(()));
    assert_eq!(o.tenant_entries(), vec![(id(1), id(100))]);
    assert_eq!(o.owner_entries(), vec![(id(1), id(50))]);
    assert_eq!(o.register_shared_user(id(100), id(1)), Err(OrchestratorError::AlreadyRegistered));
}

#[test]
fn an_owner_without_free_unit_is_throttled_like_anyone() {
    let mut o = Orchestrator::new();
    assert_eq!(o.get_or_create_dedicated_unit(id(1), 10 * SECOND), Ok(Placement::Provision));
    assert_eq!(o.commit_dedicated_unit(id(1), id(50)), Ok(id(50)));
    let before = o.snapshot();
    assert_eq!(
        o.get_or_create_shared_unit(id(1), 12 * SECOND),
        Err(OrchestratorError::RateLimited)
    );
    assert_eq!(o.snapshot(), before);
    assert_eq!(o.get_or_create_shared_unit(id(1), 15 * SECOND), Ok(Placement::Provision));
    assert_eq!(o.commit_shared_unit(id(1), id(100)), id(100));
    assert_eq!(o.get_shared_unit(&id(1)), Some(id(100)));
    assert_eq!(o.lookup_owned_unit(&id(1)), Some(id(50)));
}

#[test]
fn shared_unit_scenario() {
    // fresh orchestrator, no known units
    let mut o = Orchestrator::new();
    let x = id(1);
    let y = id(2);
    let u1 = id(100);
    let u2 = id(101);
    // X asks: a unit has to be provisioned
    assert_eq!(o.get_or_create_shared_unit(x, 10 * SECOND), Ok(Placement::Provision));
    assert_eq!(o.commit_shared_unit(x, u1), u1);
    assert_eq!(o.free_unit(), Some(u1));
    assert_eq!(o.list_known_units(), vec![u1]);
    assert_eq!(o.tenant_entries(), vec![(x, u1)]);
    // Y is placed in U1 without provisioning
    assert_eq!(o.get_or_create_shared_unit(y, 10 * SECOND), Ok(Placement::Assigned(u1)));
    assert_eq!(o.list_known_units(), vec![u1]);
    // U1 reports that it is full
    assert_eq!(o.notify_capacity_exhausted(u1), Ok(CapacityAction::ProvisionReplacement));
    assert_eq!(o.free_unit(), None);
    // the replacement arrives
    o.register_shared_unit(u2);
    assert_eq!(o.free_unit(), Some(u2));
    assert_eq!(o.list_known_units(), vec![u1, u2]);
    // X and Y stay where they were
    assert_eq!(o.get_or_create_shared_unit(x, 11 * SECOND), Ok(Placement::Existing(u1)));
    assert_eq!(o.get_or_create_shared_unit(y, 11 * SECOND), Ok(Placement::Existing(u1)));
    assert_eq!(o.get_shared_unit(&x), Some(u1));
    assert_eq!(o.get_shared_unit(&y), Some(u1));
    // a newcomer lands in U2
    assert_eq!(o.get_or_create_shared_unit(id(3), 11 * SECOND), Ok(Placement::Assigned(u2)));
}

#[test]
fn shared_requests_without_free_unit_are_rate_limited() {
    let mut o = Orchestrator::new();
    assert_eq!(o.get_or_create_shared_unit(id(1), 10 * SECOND), Ok(Placement::Provision));
    assert_eq!(
        o.get_or_create_shared_unit(id(1), 12 * SECOND),
        Err(OrchestratorError::RateLimited)
    );
    assert_eq!(o.get_or_create_shared_unit(id(1), 15 * SECOND), Ok(Placement::Provision));
}

#[test]
fn assignment_to_the_free_unit_is_not_throttled() {
    let mut o = with_free_unit();
    assert_eq!(o.get_or_create_shared_unit(id(1), 10 * SECOND), Ok(Placement::Assigned(id(100))));
    assert_eq!(o.delete_user(id(1)), Ok(id(100)));
    assert_eq!(o.get_or_create_shared_unit(id(1), 10 * SECOND), Ok(Placement::Assigned(id(100))));
    assert!(o.ledger_entries().is_empty());
}

#[test]
fn exhausted_pool_provisions_for_the_next_actor() {
    let mut o = with_free_unit();
    assert_eq!(o.notify_capacity_exhausted(id(100)), Ok(CapacityAction::ProvisionReplacement));
    assert_eq!(o.get_or_create_shared_unit(id(1), 10 * SECOND), Ok(Placement::Provision));
    assert_eq!(o.commit_shared_unit(id(1), id(101)), id(101));
    assert_eq!(o.list_known_units(), vec![id(100), id(101)]);
    assert_eq!(o.get_shared_unit(&id(1)), Some(id(101)));
}

#[test]
fn commit_shared_keeps_an_assignment_made_meanwhile() {
    let mut o = Orchestrator::new();
    assert_eq!(o.get_or_create_shared_unit(id(1), 10 * SECOND), Ok(Placement::Provision));
    o.register_shared_unit(id(100));
    assert_eq!(o.register_shared_user(id(100), id(1)), Ok(()));
    assert_eq!(o.commit_shared_unit(id(1), id(101)), id(100));
    assert_eq!(o.get_shared_unit(&id(1)), Some(id(100)));
    assert_eq!(o.free_unit(), Some(id(101)));
    assert_eq!(o.list_known_units(), vec![id(100), id(101)]);
}

#[test]
fn delete_then_rejoin_may_land_elsewhere() {
    let mut o = with_free_unit();
    assert_eq!(o.get_or_create_shared_unit(id(1), 0), Ok(Placement::Assigned(id(100))));
    o.register_shared_unit(id(101));
    assert_eq!(o.delete_user(id(1)), Ok(id(100)));
    assert_eq!(o.get_shared_unit(&id(1)), Some(id(101)));
    assert!(o.tenant_entries().is_empty());
    assert_eq!(o.get_or_create_shared_unit(id(1), 0), Ok(Placement::Assigned(id(101))));
    assert_eq!(o.tenant_entries(), vec![(id(1), id(101))]);
}

#[test]
fn delete_of_an_unknown_actor_fails() {
    let mut o = with_free_unit();
    assert_eq!(o.delete_user(id(1)), Err(OrchestratorError::UnrecognizedActor));
    assert_eq!(o.commit_dedicated_unit(id(2), id(50)), Ok(id(50)));
    assert_eq!(o.delete_user(id(2)), Err(OrchestratorError::UnrecognizedActor));
    assert_eq!(o.lookup_owned_unit(&id(2)), Some(id(50)));
}

#[test]
fn exhaustion_report_from_a_stale_unit_is_unauthorized() {
    let mut o = with_free_unit();
    o.register_shared_unit(id(101));
    assert_eq!(o.notify_capacity_exhausted(id(100)), Err(OrchestratorError::Unauthorized));
    assert_eq!(o.free_unit(), Some(id(101)));
}

#[test]
fn exhaustion_report_from_a_stranger_is_unauthorized() {
    let mut o = with_free_unit();
    assert_eq!(o.notify_capacity_exhausted(id(7)), Err(OrchestratorError::Unauthorized));
    assert_eq!(o.free_unit(), Some(id(100)));
    let mut empty = Orchestrator::new();
    assert_eq!(empty.notify_capacity_exhausted(id(7)), Err(OrchestratorError::Unauthorized));
}

#[test]
fn exhaustion_report_without_free_unit_counts() {
    let mut o = with_free_unit();
    assert_eq!(o.notify_capacity_exhausted(id(100)), Ok(CapacityAction::ProvisionReplacement));
    assert_eq!(o.notify_capacity_exhausted(id(100)), Ok(CapacityAction::ProvisionReplacement));
    assert_eq!(o.free_unit(), None);
    assert_eq!(o.list_known_units(), vec![id(100)]);
}

#[test]
fn registration_from_an_unknown_unit_fails() {
    let mut o = with_free_unit();
    assert_eq!(o.register_shared_user(id(7), id(1)), Err(OrchestratorError::UnknownUnit));
    assert_eq!(o.get_shared_unit(&id(1)), Some(id(100)));
    assert!(o.tenant_entries().is_empty());
}

#[test]
fn registration_of_a_tenant_fails() {
    let mut o = with_free_unit();
    assert_eq!(o.register_shared_user(id(100), id(1)), Ok(()));
    assert_eq!(o.register_shared_user(id(100), id(1)), Err(OrchestratorError::AlreadyRegistered));
    assert_eq!(o.register_shared_user(id(7), id(1)), Err(OrchestratorError::UnknownUnit));
    assert_eq!(o.tenant_entries(), vec![(id(1), id(100))]);
}

#[test]
fn registration_by_an_exhausted_unit_is_accepted() {
    let mut o = with_free_unit();
    o.register_shared_unit(id(101));
    assert_eq!(o.register_shared_user(id(100), id(1)), Ok(()));
    assert_eq!(o.get_shared_unit(&id(1)), Some(id(100)));
}

#[test]
fn shared_unit_falls_back_to_the_free_unit_then_to_anonymous() {
    let mut o = Orchestrator::new();
    assert_eq!(o.get_shared_unit(&id(1)), None);
    assert_eq!(o.get_shared_unit_or_anonymous(&id(1)), Principal::anonymous());
    o.register_shared_unit(id(100));
    assert_eq!(o.get_shared_unit(&id(1)), Some(id(100)));
    assert_eq!(o.get_shared_unit_or_anonymous(&id(1)), id(100));
    assert_eq!(o.register_shared_user(id(100), id(1)), Ok(()));
    o.register_shared_unit(id(101));
    assert_eq!(o.get_shared_unit_or_anonymous(&id(1)), id(100));
    assert_eq!(o.get_shared_unit_or_anonymous(&id(2)), id(101));
}

#[test]
fn top_up_is_for_known_units() {
    let o = with_free_unit();
    assert_eq!(TOP_UP_CYCLES, 100_000_000_000);
    assert_eq!(o.top_up(id(100)), Ok(Deposit { unit: id(100), amount: 100_000_000_000 }));
    assert_eq!(o.top_up(id(7)), Err(OrchestratorError::Unauthorized));
}

#[test]
fn orchestrator_from_parts_checks_the_invariant() {
    let pool = || {
        let tenants = IdentityMap::from_entries(vec![(id(1), id(100))]).unwrap();
        PoolManager::from_parts(vec![id(100)], Some(id(100)), tenants).unwrap()
    };
    let owners = |entries: Vec<(Principal, Principal)>| IdentityMap::from_entries(entries).unwrap();
    assert!(Orchestrator::from_parts(owners(vec![(id(2), id(50))]), pool(), RateLimiter::new(1))
        .is_some());
    // an owner that is a tenant too
    let both =
        Orchestrator::from_parts(owners(vec![(id(1), id(50))]), pool(), RateLimiter::new(1))
            .unwrap();
    assert_eq!(both.lookup_owned_unit(&id(1)), Some(id(50)));
    assert_eq!(both.get_shared_unit(&id(1)), Some(id(100)));
    // one unit with two owners
    assert!(Orchestrator::from_parts(
        owners(vec![(id(2), id(50)), (id(3), id(50))]),
        pool(),
        RateLimiter::new(1)
    )
    .is_none());
}
