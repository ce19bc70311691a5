//! The orchestrator: for each request it returns the unit an actor already
//! has, places the actor in the free shared unit, or asks for a new unit to
//! be provisioned.
//!
//! Provisioning is slow work done elsewhere. A request that needs a new
//! unit therefore comes in two steps: the request itself, which answers
//! `Placement::Provision`, and the commit of the unit once it exists.
//!
//! Dedicated units and places in shared units are kept apart: what an
//! actor holds of the one has no bearing on its requests for the other.

use crate::error::OrchestratorError;
use crate::identity_map::{keys_distinct, map_of, IdentityMap};
use crate::limiter::{LimiterState, RateLimiter, DEFAULT_MIN_CREATE_INTERVAL_NS};
use crate::pool::{CapacityAction, PoolManager, PoolState};
use crate::principal::{ActorId, Principal, UnitId};
use vstd::prelude::*;

verus! {

/// The budget a top-up adds to a unit.
pub const TOP_UP_CYCLES: u128 = 100_000_000_000;

/// How a request for a unit was answered.
#[derive(Clone, Copy, Debug, PartialEq, Eq)]
pub enum Placement {
    /// The actor had this unit before the request.
    Existing(UnitId),
    /// The actor has just been placed in this shared unit, which is to be
    /// told of its new tenant.
    Assigned(UnitId),
    /// A new unit has to be provisioned and then committed.
    Provision,
}

/// The order to add `amount` to the budget of `unit`.
#[derive(Clone, Copy, Debug, PartialEq, Eq)]
pub struct Deposit {
    pub unit: UnitId,
    pub amount: u128,
}

/// The orchestrator as a mathematical value.
pub struct State {
    /// The dedicated unit of each owner.
    pub owners: Map<ActorId, UnitId>,
    /// The shared units and their tenants.
    pub pool: PoolState,
    /// The throttle on creation requests.
    pub limiter: LimiterState,
}

impl State {
    /// The state without units, assignments or recorded requests.
    pub open spec fn empty(min_interval: u64) -> State {
        State {
            owners: Map::empty(),
            pool: PoolState::empty(),
            limiter: LimiterState { ledger: Map::empty(), min_interval },
        }
    }

    /// The pool is well formed, and no unit is the dedicated unit of two
    /// owners.
    pub open spec fn wf(self) -> bool {
        &&& self.pool.wf()
        &&& self.owners.is_injective()
    }

    /// The dedicated unit of `actor`.
    pub open spec fn lookup_owned_unit(self, actor: ActorId) -> Option<UnitId> {
        self.owners.index_opt(actor)
    }

    /// The shared unit `actor` is to use: its own if it is a tenant, else
    /// the free unit.
    pub open spec fn get_shared_unit(self, actor: ActorId) -> Option<UnitId> {
        if self.pool.tenants.contains_key(actor) {
            Some(self.pool.tenants[actor])
        } else {
            self.pool.free
        }
    }

    /// The state after a creation request of `actor` has passed the
    /// throttle at `now`.
    pub open spec fn let_through(self, actor: ActorId, now: u64) -> State {
        State { limiter: self.limiter.record(actor, now), ..self }
    }

    /// A request of `actor` for its dedicated unit.
    pub open spec fn get_or_create_dedicated_unit(self, actor: ActorId, now: u64) -> (
        State,
        Result<Placement, OrchestratorError>,
    ) {
        if self.owners.contains_key(actor) {
            (self, Ok(Placement::Existing(self.owners[actor])))
        } else if self.limiter.throttled(actor, now) {
            (self, Err(OrchestratorError::RateLimited))
        } else {
            (self.let_through(actor, now), Ok(Placement::Provision))
        }
    }

    /// The commit of `unit`, provisioned for `actor`, as its dedicated unit.
    /// A unit that `actor` has come to own in the meantime stays as it is.
    pub open spec fn commit_dedicated_unit(self, actor: ActorId, unit: UnitId) -> (
        State,
        Result<UnitId, OrchestratorError>,
    ) {
        if self.owners.contains_key(actor) {
            (self, Ok(self.owners[actor]))
        } else if self.owners.contains_value(unit) {
            (self, Err(OrchestratorError::PlatformError))
        } else {
            (State { owners: self.owners.insert(actor, unit), ..self }, Ok(unit))
        }
    }

    /// A request of `actor` for a place in a shared unit.
    pub open spec fn get_or_create_shared_unit(self, actor: ActorId, now: u64) -> (
        State,
        Result<Placement, OrchestratorError>,
    ) {
        if self.pool.tenants.contains_key(actor) {
            (self, Ok(Placement::Existing(self.pool.tenants[actor])))
        } else {
            match self.pool.assign_to_free_unit(actor) {
                (pool, Ok(unit)) => (State { pool, ..self }, Ok(Placement::Assigned(unit))),
                (_, Err(_)) => if self.limiter.throttled(actor, now) {
                    (self, Err(OrchestratorError::RateLimited))
                } else {
                    (self.let_through(actor, now), Ok(Placement::Provision))
                },
            }
        }
    }

    /// The state after the new shared unit `unit` has been taken into the
    /// pool as the free unit.
    pub open spec fn register_shared_unit(self, unit: UnitId) -> State {
        State { pool: self.pool.register_new_unit(unit), ..self }
    }

    /// The commit of the shared unit `unit`, provisioned on the request of
    /// `actor`: the unit joins the pool as the free unit and `actor`
    /// becomes its first tenant. A place that `actor` has been given in the
    /// meantime stays as it is. The second part is the unit `actor` is a
    /// tenant of afterwards.
    pub open spec fn commit_shared_unit(self, actor: ActorId, unit: UnitId) -> (State, UnitId) {
        let grown = self.register_shared_unit(unit);
        if grown.pool.tenants.contains_key(actor) {
            (grown, grown.pool.tenants[actor])
        } else {
            (State { pool: grown.pool.assign_to_free_unit(actor).0, ..grown }, unit)
        }
    }

    /// The report of `caller` that it is full.
    pub open spec fn notify_capacity_exhausted(self, caller: UnitId) -> (
        State,
        Result<CapacityAction, OrchestratorError>,
    ) {
        if self.pool.known.contains(caller) && self.pool.may_report_exhaustion(caller) {
            (
                State { pool: self.pool.on_capacity_exhausted(caller).0, ..self },
                Ok(CapacityAction::ProvisionReplacement),
            )
        } else {
            (self, Err(OrchestratorError::Unauthorized))
        }
    }

    /// The report of the unit `caller` that it has taken `actor` in: what
    /// the pool makes of it, and nothing else.
    pub open spec fn register_shared_user(self, caller: UnitId, actor: ActorId) -> (
        State,
        Result<(), OrchestratorError>,
    ) {
        let (pool, outcome) = self.pool.register_user(caller, actor);
        (State { pool, ..self }, outcome)
    }

    /// The request of `actor` to leave its shared unit.
    pub open spec fn delete_user(self, actor: ActorId) -> (
        State,
        Result<UnitId, OrchestratorError>,
    ) {
        if self.pool.tenants.contains_key(actor) {
            (State { pool: self.pool.remove_user(actor).0, ..self }, Ok(self.pool.tenants[actor]))
        } else {
            (self, Err(OrchestratorError::UnrecognizedActor))
        }
    }

    /// The request of the unit `caller` for more budget.
    pub open spec fn top_up(self, caller: UnitId) -> Result<Deposit, OrchestratorError> {
        if self.pool.known.contains(caller) {
            Ok(Deposit { unit: caller, amount: TOP_UP_CYCLES })
        } else {
            Err(OrchestratorError::Unauthorized)
        }
    }

    /// Every request leaves a well-formed state well formed.
    pub proof fn lemma_requests_keep_wf(self, actor: ActorId, unit: UnitId, now: u64)
        requires
            self.wf(),
        ensures
            self.get_or_create_dedicated_unit(actor, now).0.wf(),
            self.commit_dedicated_unit(actor, unit).0.wf(),
            self.get_or_create_shared_unit(actor, now).0.wf(),
            self.register_shared_unit(unit).wf(),
            self.commit_shared_unit(actor, unit).0.wf(),
            self.notify_capacity_exhausted(unit).0.wf(),
            self.register_shared_user(unit, actor).0.wf(),
            self.delete_user(actor).0.wf(),
    {
        self.pool.lemma_steps_keep_wf(unit, actor);
        let grown = self.register_shared_unit(unit);
        grown.pool.lemma_steps_keep_wf(unit, actor);
        let committed = self.commit_dedicated_unit(actor, unit).0;
        assert(committed.owners.is_injective()) by {
            if committed != self {
                assert forall|x: ActorId, y: ActorId|
                    x != y && committed.owners.dom().contains(x) && committed.owners.dom().contains(
                        y,
                    ) implies #[trigger] committed.owners[x] != #[trigger] committed.owners[y] by {
                    if x != actor && y != actor {
                        assert(self.owners.dom().contains(x) && self.owners.dom().contains(y));
                    } else if x == actor {
                        assert(self.owners.dom().contains(y));
                    } else {
                        assert(self.owners.dom().contains(x));
                    }
                }
            }
        }
    }
}

/// The orchestrator.
pub struct Orchestrator {
    owners: IdentityMap<UnitId>,
    pool: PoolManager,
    limiter: RateLimiter,
}

impl View for Orchestrator {
    type V = State;

    closed spec fn view(&self) -> State {
        State { owners: self.owners@, pool: self.pool@, limiter: self.limiter@ }
    }
}

impl Orchestrator {
    /// The invariant: the representation is sound and the state it stands
    /// for is well formed.
    pub closed spec fn wf(&self) -> bool {
        &&& self.owners.wf()
        &&& self.pool.wf()
        &&& self.limiter.wf()
        &&& self@.wf()
    }

    /// The state of a well-formed orchestrator is well formed.
    pub proof fn lemma_wf_state(&self)
        requires
            self.wf(),
        ensures
            self@.wf(),
    {
    }

    /// An orchestrator without units or assignments that lets each actor
    /// request one creation per `min_interval` nanoseconds.
    pub fn with_interval(min_interval: u64) -> (o: Orchestrator)
        ensures
            o.wf(),
            o@ == State::empty(min_interval),
    {
        Orchestrator {
            owners: IdentityMap::new(),
            pool: PoolManager::new(),
            limiter: RateLimiter::new(min_interval),
        }
    }

    /// An orchestrator without units or assignments, with the usual
    /// interval between creation requests.
    pub fn new() -> (o: Orchestrator)
        ensures
            o.wf(),
            o@ == State::empty(DEFAULT_MIN_CREATE_INTERVAL_NS),
    {
        Orchestrator::with_interval(DEFAULT_MIN_CREATE_INTERVAL_NS)
    }

    /// The orchestrator with the given owners, pool and limiter; `None`
    /// where a unit has two owners.
    pub fn from_parts(owners: IdentityMap<UnitId>, pool: PoolManager, limiter: RateLimiter) -> (r:
        Option<Orchestrator>)
        requires
            owners.wf(),
            pool.wf(),
            limiter.wf(),
        ensures
            r.is_some() == (State { owners: owners@, pool: pool@, limiter: limiter@ }).wf(),
            r matches Some(o) ==> o.wf() && o@ == (State {
                owners: owners@,
                pool: pool@,
                limiter: limiter@,
            }),
    {
        proof {
            pool.lemma_wf_state();
        }
        if !owners.is_injective() {
            return None;
        }
        Some(Orchestrator { owners, pool, limiter })
    }

    /// The owners with their dedicated units, each owner once.
    pub fn owner_entries(&self) -> (entries: Vec<(ActorId, UnitId)>)
        requires
            self.wf(),
        ensures
            keys_distinct(entries@),
            map_of(entries@) == self@.owners,
    {
        self.owners.to_entries()
    }

    /// The tenants with their shared units, each tenant once.
    pub fn tenant_entries(&self) -> (entries: Vec<(ActorId, UnitId)>)
        requires
            self.wf(),
        ensures
            keys_distinct(entries@),
            map_of(entries@) == self@.pool.tenants,
    {
        self.pool.tenant_entries()
    }

    /// The time of the last creation request of each actor, each actor
    /// once.
    pub fn ledger_entries(&self) -> (entries: Vec<(ActorId, u64)>)
        requires
            self.wf(),
        ensures
            keys_distinct(entries@),
            map_of(entries@) == self@.limiter.ledger,
    {
        self.limiter.to_entries()
    }

    /// The dedicated unit of `actor`, if it owns one.
    pub fn lookup_owned_unit(&self, actor: &ActorId) -> (unit: Option<UnitId>)
        requires
            self.wf(),
        ensures
            unit == self@.lookup_owned_unit(*actor),
    {
        self.owners.get(actor)
    }

    /// The shared unit `actor` is to use: the one it is a tenant of, else
    /// the free unit; `None` when there is neither.
    pub fn get_shared_unit(&self, actor: &ActorId) -> (unit: Option<UnitId>)
        requires
            self.wf(),
        ensures
            unit == self@.get_shared_unit(*actor),
    {
        match self.pool.unit_of(actor) {
            Some(unit) => Some(unit),
            None => self.pool.free_unit(),
        }
    }

    /// The shared unit `actor` is to use, or the anonymous identity when
    /// it is no tenant and no unit is free.
    pub fn get_shared_unit_or_anonymous(&self, actor: &ActorId) -> (unit: UnitId)
        requires
            self.wf(),
        ensures
            match self@.get_shared_unit(*actor) {
                Some(shared) => unit == shared,
                None => unit@ == seq![4u8],
            },
    {
        match self.get_shared_unit(actor) {
            Some(shared) => shared,
            None => Principal::anonymous(),
        }
    }

    /// The shared units under control, oldest first.
    pub fn list_known_units(&self) -> (units: Vec<UnitId>)
        ensures
            units@ == self@.pool.known,
    {
        self.pool.known_units()
    }

    /// The unit that accepts new tenants, if any does.
    pub fn free_unit(&self) -> (unit: Option<UnitId>)
        ensures
            unit == self@.pool.free,
    {
        self.pool.free_unit()
    }

    /// The interval that must pass between two creation requests of one
    /// actor, in nanoseconds.
    pub fn min_create_interval(&self) -> (interval: u64)
        ensures
            interval == self@.limiter.min_interval,
    {
        self.limiter.min_interval()
    }

    /// Answers the request of `actor` for its dedicated unit. The unit it
    /// owns is returned as it is. Otherwise the request fails with
    /// `RateLimited`, changing nothing, when the last creation request of
    /// `actor` is too recent; else the request is recorded at `now` and a
    /// unit is to be provisioned and committed with
    /// `commit_dedicated_unit`.
    pub fn get_or_create_dedicated_unit(&mut self, actor: ActorId, now: u64) -> (r: Result<
        Placement,
        OrchestratorError,
    >)
        requires
            old(self).wf(),
        ensures
            final(self).wf(),
            (final(self)@, r) == old(self)@.get_or_create_dedicated_unit(actor, now),
    {
        proof {
            self@.lemma_requests_keep_wf(actor, actor, now);
        }
        if let Some(unit) = self.owners.get(&actor) {
            return Ok(Placement::Existing(unit));
        }
        match self.limiter.check_and_record(actor, now) {
            Ok(()) => Ok(Placement::Provision),
            Err(e) => Err(e),
        }
    }

    /// Commits `unit`, provisioned on the request of `actor`, as the
    /// dedicated unit of `actor`, and returns the unit `actor` owns
    /// afterwards. Where `actor` has come to own a unit in the meantime,
    /// that one stays. Fails with `PlatformError`, changing nothing, when
    /// `unit` is the dedicated unit of another actor.
    pub fn commit_dedicated_unit(&mut self, actor: ActorId, unit: UnitId) -> (r: Result<
        UnitId,
        OrchestratorError,
    >)
        requires
            old(self).wf(),
        ensures
            final(self).wf(),
            (final(self)@, r) == old(self)@.commit_dedicated_unit(actor, unit),
    {
        proof {
            self@.lemma_requests_keep_wf(actor, unit, 0);
        }
        if let Some(owned) = self.owners.get(&actor) {
            return Ok(owned);
        }
        if self.owners.contains_value(&unit) {
            return Err(OrchestratorError::PlatformError);
        }
        self.owners.insert(actor, unit);
        Ok(unit)
    }

    /// Answers the request of `actor` for a place in a shared unit. The
    /// unit it is a tenant of is returned as it is. Otherwise `actor`
    /// becomes a tenant of the free unit, if there is one. With no free
    /// unit the request fails with `RateLimited`, changing nothing, when
    /// the last creation request of `actor` is too recent; else it is
    /// recorded at `now` and a shared unit is to be provisioned and
    /// committed with `commit_shared_unit`.
    pub fn get_or_create_shared_unit(&mut self, actor: ActorId, now: u64) -> (r: Result<
        Placement,
        OrchestratorError,
    >)
        requires
            old(self).wf(),
        ensures
            final(self).wf(),
            (final(self)@, r) == old(self)@.get_or_create_shared_unit(actor, now),
    {
        proof {
            self@.lemma_requests_keep_wf(actor, actor, now);
        }
        if let Some(unit) = self.pool.unit_of(&actor) {
            return Ok(Placement::Existing(unit));
        }
        match self.pool.assign_to_free_unit(actor) {
            Ok(unit) => Ok(Placement::Assigned(unit)),
            Err(_) => match self.limiter.check_and_record(actor, now) {
                Ok(()) => Ok(Placement::Provision),
                Err(e) => Err(e),
            },
        }
    }

    /// Takes the freshly provisioned shared unit `unit` into the pool and
    /// makes it the free unit.
    pub fn register_shared_unit(&mut self, unit: UnitId)
        requires
            old(self).wf(),
        ensures
            final(self).wf(),
            final(self)@ == old(self)@.register_shared_unit(unit),
    {
        proof {
            self@.lemma_requests_keep_wf(unit, unit, 0);
        }
        self.pool.register_new_unit(unit);
    }

    /// Commits the shared unit `unit`, provisioned on the request of
    /// `actor`: the unit joins the pool as the free unit, `actor` becomes
    /// its first tenant, and the unit `actor` is a tenant of is returned.
    /// Where `actor` has become a tenant in the meantime, that assignment
    /// stays.
    pub fn commit_shared_unit(&mut self, actor: ActorId, unit: UnitId) -> (assigned: UnitId)
        requires
            old(self).wf(),
        ensures
            final(self).wf(),
            (final(self)@, assigned) == old(self)@.commit_shared_unit(actor, unit),
    {
        proof {
            self@.lemma_requests_keep_wf(actor, unit, 0);
        }
        self.pool.register_new_unit(unit);
        if let Some(existing) = self.pool.unit_of(&actor) {
            return existing;
        }
        match self.pool.assign_to_free_unit(actor) {
            Ok(assigned) => assigned,
            Err(_) => unit,
        }
    }

    /// Handles the report of `caller` that it is full. Where `caller` is a
    /// known unit and either the free unit or no unit is free, no unit is
    /// free afterwards and one replacement is to be provisioned. Every
    /// other report fails with `Unauthorized` and changes nothing.
    pub fn notify_capacity_exhausted(&mut self, caller: UnitId) -> (r: Result<
        CapacityAction,
        OrchestratorError,
    >)
        requires
            old(self).wf(),
        ensures
            final(self).wf(),
            (final(self)@, r) == old(self)@.notify_capacity_exhausted(caller),
    {
        proof {
            self@.lemma_requests_keep_wf(caller, caller, 0);
        }
        if !self.pool.is_known(&caller) {
            return Err(OrchestratorError::Unauthorized);
        }
        match self.pool.on_capacity_exhausted(caller) {
            CapacityAction::ProvisionReplacement => Ok(CapacityAction::ProvisionReplacement),
            CapacityAction::Ignore => Err(OrchestratorError::Unauthorized),
        }
    }

    /// Records that the unit `caller` has taken `actor` in as a tenant.
    /// Fails, changing nothing, with `UnknownUnit` when `caller` is not a
    /// known unit, else with `AlreadyRegistered` when `actor` is a tenant
    /// already. In every other case it succeeds, and `actor` is a tenant
    /// of `caller` from then on.
    pub fn register_shared_user(&mut self, caller: UnitId, actor: ActorId) -> (r: Result<
        (),
        OrchestratorError,
    >)
        requires
            old(self).wf(),
        ensures
            final(self).wf(),
            (final(self)@, r) == old(self)@.register_shared_user(caller, actor),
    {
        proof {
            self@.lemma_requests_keep_wf(actor, caller, 0);
        }
        self.pool.register_user(caller, actor)
    }

    /// Takes `actor` out of its shared unit and returns that unit, which is
    /// to be told to purge the data of `actor`. Fails with
    /// `UnrecognizedActor`, changing nothing, when `actor` is no tenant.
    pub fn delete_user(&mut self, actor: ActorId) -> (r: Result<UnitId, OrchestratorError>)
        requires
            old(self).wf(),
        ensures
            final(self).wf(),
            (final(self)@, r) == old(self)@.delete_user(actor),
    {
        proof {
            self@.lemma_requests_keep_wf(actor, actor, 0);
        }
        match self.pool.remove_user(&actor) {
            Some(unit) => Ok(unit),
            None => {
                assert(self@.pool.tenants =~= old(self)@.pool.tenants);
                Err(OrchestratorError::UnrecognizedActor)
            },
        }
    }

    /// Answers the request of the unit `caller` for more budget: a known
    /// unit is owed a deposit of `TOP_UP_CYCLES`, any other caller is
    /// turned away with `Unauthorized`.
    pub fn top_up(&self, caller: UnitId) -> (r: Result<Deposit, OrchestratorError>)
        ensures
            r == self@.top_up(caller),
    {
        if self.pool.is_known(&caller) {
            Ok(Deposit { unit: caller, amount: TOP_UP_CYCLES })
        } else {
            Err(OrchestratorError::Unauthorized)
        }
    }
}

impl Default for Orchestrator {
    /// The orchestrator as it starts: without units or assignments, with
    /// the usual interval between creation requests.
    fn default() -> (o: Orchestrator)
        ensures
            o.wf(),
            o@ == State::empty(DEFAULT_MIN_CREATE_INTERVAL_NS),
    {
        Orchestrator::new()
    }
}

} // verus!
