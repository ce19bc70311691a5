//! The whole of the orchestrator's state as plain data, to be stored before
//! a restart and read back after it.

use crate::identity_map::{keys_distinct, map_of, IdentityMap};
use crate::limiter::{LimiterState, RateLimiter, DEFAULT_MIN_CREATE_INTERVAL_NS};
use crate::orchestrator::{Orchestrator, State};
use crate::pool::{PoolManager, PoolState};
use crate::principal::{ActorId, UnitId};
use vstd::prelude::*;

verus! {

/// A copy of everything the orchestrator knows.
#[derive(Debug, PartialEq, Eq)]
pub struct Snapshot {
    /// The dedicated unit of each owner.
    pub owner_to_unit: Vec<(ActorId, UnitId)>,
    /// The shared unit of each tenant.
    pub users_to_shared_unit: Vec<(ActorId, UnitId)>,
    /// The shared units under control, oldest first.
    pub known_shared_units: Vec<UnitId>,
    /// The unit that accepts new tenants.
    pub free_shared_unit: Option<UnitId>,
    /// The time of each actor's last creation request, in nanoseconds.
    pub last_create_nanos: Vec<(ActorId, u64)>,
    /// The interval between two creation requests of one actor, in
    /// nanoseconds.
    pub min_create_interval_ns: u64,
}

impl View for Snapshot {
    type V = State;

    open spec fn view(&self) -> State {
        State {
            owners: map_of(self.owner_to_unit@),
            pool: PoolState {
                known: self.known_shared_units@,
                free: self.free_shared_unit,
                tenants: map_of(self.users_to_shared_unit@),
            },
            limiter: LimiterState {
                ledger: map_of(self.last_create_nanos@),
                min_interval: self.min_create_interval_ns,
            },
        }
    }
}

impl Snapshot {
    /// The snapshot lists no actor twice in any of its maps and stands for
    /// a well-formed state.
    pub open spec fn valid(&self) -> bool {
        &&& keys_distinct(self.owner_to_unit@)
        &&& keys_distinct(self.users_to_shared_unit@)
        &&& keys_distinct(self.last_create_nanos@)
        &&& self@.wf()
    }
}

/// The state an orchestrator resumes with: that of the snapshot, or the
/// state a new orchestrator starts in when there is no snapshot or the
/// snapshot is not valid.
pub open spec fn restored(snapshot: Option<Snapshot>) -> State {
    match snapshot {
        Some(s) => if s.valid() {
            s@
        } else {
            State::empty(DEFAULT_MIN_CREATE_INTERVAL_NS)
        },
        None => State::empty(DEFAULT_MIN_CREATE_INTERVAL_NS),
    }
}

impl Orchestrator {
    /// Copies the whole state into a snapshot.
    pub fn snapshot(&self) -> (snapshot: Snapshot)
        requires
            self.wf(),
        ensures
            snapshot.valid(),
            snapshot@ == self@,
    {
        let snapshot = Snapshot {
            owner_to_unit: self.owner_entries(),
            users_to_shared_unit: self.tenant_entries(),
            known_shared_units: self.list_known_units(),
            free_shared_unit: self.free_unit(),
            last_create_nanos: self.ledger_entries(),
            min_create_interval_ns: self.min_create_interval(),
        };
        proof {
            self.lemma_wf_state();
        }
        snapshot
    }

    /// The orchestrator in the state of `snapshot`; `None` when the
    /// snapshot is not valid.
    pub fn from_snapshot(snapshot: Snapshot) -> (r: Option<Orchestrator>)
        ensures
            r.is_some() == snapshot.valid(),
            r matches Some(o) ==> o.wf() && o@ == snapshot@,
    {
        let Snapshot {
            owner_to_unit,
            users_to_shared_unit,
            known_shared_units,
            free_shared_unit,
            last_create_nanos,
            min_create_interval_ns,
        } = snapshot;
        let owners = match IdentityMap::from_entries(owner_to_unit) {
            Some(owners) => owners,
            None => {
                return None;
            },
        };
        let tenants = match IdentityMap::from_entries(users_to_shared_unit) {
            Some(tenants) => tenants,
            None => {
                return None;
            },
        };
        let limiter = match RateLimiter::from_entries(last_create_nanos, min_create_interval_ns) {
            Some(limiter) => limiter,
            None => {
                return None;
            },
        };
        let pool = match PoolManager::from_parts(known_shared_units, free_shared_unit, tenants) {
            Some(pool) => pool,
            None => {
                return None;
            },
        };
        Orchestrator::from_parts(owners, pool, limiter)
    }

    /// The orchestrator a process resumes with: in the state of the
    /// snapshot, or as a new orchestrator starts when there is no snapshot
    /// or the snapshot is not valid.
    pub fn restore(snapshot: Option<Snapshot>) -> (o: Orchestrator)
        ensures
            o.wf(),
            o@ == restored(snapshot),
    {
        match snapshot {
            Some(s) => match Orchestrator::from_snapshot(s) {
                Some(o) => o,
                None => Orchestrator::new(),
            },
            None => Orchestrator::new(),
        }
    }
}

} // verus!
