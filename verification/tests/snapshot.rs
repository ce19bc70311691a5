use vault_orchestrator::error::OrchestratorError;
use vault_orchestrator::orchestrator::{Orchestrator, Placement};
use vault_orchestrator::pool::CapacityAction;
use vault_orchestrator::principal::Principal;
use vault_orchestrator::snapshot::Snapshot;

fn id(byte: u8) -> Principal {
    Principal::from_slice(&[byte]).unwrap()
}

fn busy() -> Orchestrator {
    let mut o = Orchestrator::with_interval(1_000);
    assert_eq!(o.get_or_create_shared_unit(id(1), 50), Ok(Placement::Provision));
    assert_eq!(o.commit_shared_unit(id(1), id(100)), id(100));
    assert_eq!(o.get_or_create_shared_unit(id(2), 60), Ok(Placement::Assigned(id(100))));
    assert_eq!(o.notify_capacity_exhausted(id(100)), Ok(CapacityAction::ProvisionReplacement));
    o.register_shared_unit(id(101));
    assert_eq!(o.get_or_create_dedicated_unit(id(3), 70), Ok(Placement::Provision));
    assert_eq!(o.commit_dedicated_unit(id(3), id(50)), Ok(id(50)));
    o
}

fn valid() -> Snapshot {
    Snapshot {
        owner_to_unit: vec![(id(3), id(50))],
        users_to_shared_unit: vec![(id(1), id(100)), (id(2), id(100))],
        known_shared_units: vec![id(100), id(101)],
        free_shared_unit: Some(id(101)),
        last_create_nanos: vec![(id(1), 50), (id(3), 70)],
        min_create_interval_ns: 1_000,
    }
}

#[test]
fn snapshot_holds_the_whole_state() {
    assert_eq!(busy().snapshot(), valid());
}

#[test]
fn snapshot_round_trip() {
    let before = busy();
    let after = Orchestrator::restore(Some(before.snapshot()));
    assert_eq!(after.snapshot(), before.snapshot());
    assert_eq!(after.lookup_owned_unit(&id(3)), Some(id(50)));
    assert_eq!(after.get_shared_unit(&id(1)), Some(id(100)));
    assert_eq!(after.get_shared_unit(&id(2)), Some(id(100)));
    assert_eq!(after.get_shared_unit(&id(9)), Some(id(101)));
    assert_eq!(after.list_known_units(), vec![id(100), id(101)]);
    assert_eq!(after.free_unit(), Some(id(101)));
    assert_eq!(after.min_create_interval(), 1_000);
    assert_eq!(after.ledger_entries(), vec![(id(1), 50), (id(3), 70)]);
}

#[test]
fn snapshot_of_an_empty_state_round_trips() {
    let before = Orchestrator::new();
    let after = Orchestrator::restore(Some(before.snapshot()));
    assert_eq!(after.snapshot(), before.snapshot());
    assert_eq!(after.min_create_interval(), 5_000_000_000);
}

#[test]
fn restore_without_snapshot_is_empty() {
    let o = Orchestrator::restore(None);
    assert!(o.list_known_units().is_empty());
    assert_eq!(o.free_unit(), None);
    assert!(o.owner_entries().is_empty());
    assert!(o.tenant_entries().is_empty());
    assert!(o.ledger_entries().is_empty());
    assert_eq!(o.min_create_interval(), 5_000_000_000);
    assert_eq!(o.snapshot(), Orchestrator::new().snapshot());
}

#[test]
fn restore_without_snapshot_keeps_the_throttle() {
    let mut o = Orchestrator::restore(None);
    assert_eq!(o.get_or_create_dedicated_unit(id(1), 10_000_000_000), Ok(Placement::Provision));
    assert_eq!(
        o.get_or_create_dedicated_unit(id(1), 14_999_999_999),
        Err(OrchestratorError::RateLimited)
    );
    assert_eq!(o.get_or_create_dedicated_unit(id(1), 15_000_000_000), Ok(Placement::Provision));
}

#[test]
fn default_is_a_new_orchestrator() {
    let o = Orchestrator::default();
    assert_eq!(o.min_create_interval(), 5_000_000_000);
    assert_eq!(o.snapshot(), Orchestrator::new().snapshot());
}

#[test]
fn restore_of_an_invalid_snapshot_is_empty() {
    let mut s = valid();
    s.free_shared_unit = Some(id(7));
    let o = Orchestrator::restore(Some(s));
    assert!(o.list_known_units().is_empty());
    assert_eq!(o.min_create_interval(), 5_000_000_000);
    assert_eq!(o.snapshot(), Orchestrator::new().snapshot());
}

#[test]
fn from_snapshot_accepts_a_valid_snapshot() {
    let o = Orchestrator::from_snapshot(valid()).unwrap();
    assert_eq!(o.snapshot(), valid());
}

#[test]
fn from_snapshot_refuses_a_repeated_owner() {
    let mut s = valid();
    s.owner_to_unit = vec![(id(3), id(50)), (id(3), id(51))];
    assert!(Orchestrator::from_snapshot(s).is_none());
}

#[test]
fn from_snapshot_refuses_a_repeated_tenant() {
    let mut s = valid();
    s.users_to_shared_unit = vec![(id(1), id(100)), (id(1), id(101))];
    assert!(Orchestrator::from_snapshot(s).is_none());
}

#[test]
fn from_snapshot_refuses_a_repeated_ledger_entry() {
    let mut s = valid();
    s.last_create_nanos = vec![(id(1), 50), (id(1), 70)];
    assert!(Orchestrator::from_snapshot(s).is_none());
}

#[test]
fn from_snapshot_refuses_a_repeated_unit() {
    let mut s = valid();
    s.known_shared_units = vec![id(100), id(101), id(100)];
    assert!(Orchestrator::from_snapshot(s).is_none());
}

#[test]
fn from_snapshot_refuses_an_unknown_free_unit() {
    let mut s = valid();
    s.free_shared_unit = Some(id(7));
    assert!(Orchestrator::from_snapshot(s).is_none());
}

#[test]
fn from_snapshot_refuses_a_tenant_of_an_unknown_unit() {
    let mut s = valid();
    s.users_to_shared_unit = vec![(id(1), id(100)), (id(2), id(7))];
    assert!(Orchestrator::from_snapshot(s).is_none());
}

#[test]
fn from_snapshot_accepts_an_owner_that_is_a_tenant() {
    let mut s = valid();
    s.owner_to_unit = vec![(id(1), id(50))];
    let o = Orchestrator::from_snapshot(s).unwrap();
    assert_eq!(o.lookup_owned_unit(&id(1)), Some(id(50)));
    assert_eq!(o.get_shared_unit(&id(1)), Some(id(100)));
}

#[test]
fn from_snapshot_refuses_a_unit_with_two_owners() {
    let mut s = valid();
    s.owner_to_unit = vec![(id(3), id(50)), (id(4), id(50))];
    assert!(Orchestrator::from_snapshot(s).is_none());
}
