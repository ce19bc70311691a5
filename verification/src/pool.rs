//! The pool of shared units: which units are known, which one accepts new
//! tenants, and which unit each tenant lives in.

use crate::error::OrchestratorError;
use crate::identity_map::{keys_distinct, map_of, IdentityMap};
use crate::principal::{list_contains, list_copy, list_distinct, ActorId, UnitId};
use vstd::prelude::*;

verus! {

/// What follows a unit's report that it is full.
#[derive(Clone, Copy, Debug, PartialEq, Eq, Structural, Hash)]
pub enum CapacityAction {
    /// A new shared unit has to be provisioned.
    ProvisionReplacement,
    /// The report came from a unit that does not accept tenants; it changes
    /// nothing and its sender is to be turned away.
    Ignore,
}

/// The pool as a mathematical value.
pub struct PoolState {
    /// The shared units under control, oldest first.
    pub known: Seq<UnitId>,
    /// The unit that accepts new tenants, if any does.
    pub free: Option<UnitId>,
    /// The unit of each tenant.
    pub tenants: Map<ActorId, UnitId>,
}

impl PoolState {
    /// The pool without any unit.
    pub open spec fn empty() -> PoolState {
        PoolState { known: Seq::empty(), free: None, tenants: Map::empty() }
    }

    /// No unit is listed twice, and the free unit and every tenant's unit
    /// are known.
    pub open spec fn wf(self) -> bool {
        &&& self.known.no_duplicates()
        &&& self.free matches Some(unit) ==> self.known.contains(unit)
        &&& forall|actor: ActorId| #[trigger]
            self.tenants.contains_key(actor) ==> self.known.contains(self.tenants[actor])
    }

    /// Places `actor` in the free unit, if there is one.
    pub open spec fn assign_to_free_unit(self, actor: ActorId) -> (
        PoolState,
        Result<UnitId, OrchestratorError>,
    ) {
        match self.free {
            Some(unit) => (
                PoolState { tenants: self.tenants.insert(actor, unit), ..self },
                Ok(unit),
            ),
            None => (self, Err(OrchestratorError::NoFreeUnit)),
        }
    }

    /// Takes `unit` into the pool, at the end if it is new, and makes it the
    /// free unit.
    pub open spec fn register_new_unit(self, unit: UnitId) -> PoolState {
        PoolState {
            known: if self.known.contains(unit) {
                self.known
            } else {
                self.known.push(unit)
            },
            free: Some(unit),
            tenants: self.tenants,
        }
    }

    /// A report of `unit` counts when `unit` is the free unit or no unit is
    /// free.
    pub open spec fn may_report_exhaustion(self, unit: UnitId) -> bool {
        self.free == Some(unit) || self.free is None
    }

    /// Handles the report of `unit` that it is full.
    pub open spec fn on_capacity_exhausted(self, unit: UnitId) -> (PoolState, CapacityAction) {
        if self.may_report_exhaustion(unit) {
            (PoolState { free: None, ..self }, CapacityAction::ProvisionReplacement)
        } else {
            (self, CapacityAction::Ignore)
        }
    }

    /// Records that `unit` has taken `actor` in as a tenant.
    pub open spec fn register_user(self, unit: UnitId, actor: ActorId) -> (
        PoolState,
        Result<(), OrchestratorError>,
    ) {
        if !self.known.contains(unit) {
            (self, Err(OrchestratorError::UnknownUnit))
        } else if self.tenants.contains_key(actor) {
            (self, Err(OrchestratorError::AlreadyRegistered))
        } else {
            (PoolState { tenants: self.tenants.insert(actor, unit), ..self }, Ok(()))
        }
    }

    /// Takes the assignment of `actor` out of the pool.
    pub open spec fn remove_user(self, actor: ActorId) -> (PoolState, Option<UnitId>) {
        (PoolState { tenants: self.tenants.remove(actor), ..self }, self.tenants.index_opt(actor))
    }

    /// Every step of the pool keeps it well formed.
    pub proof fn lemma_steps_keep_wf(self, unit: UnitId, actor: ActorId)
        requires
            self.wf(),
        ensures
            self.assign_to_free_unit(actor).0.wf(),
            self.register_new_unit(unit).wf(),
            self.on_capacity_exhausted(unit).0.wf(),
            self.register_user(unit, actor).0.wf(),
            self.remove_user(actor).0.wf(),
    {
        let grown = self.register_new_unit(unit);
        if !self.known.contains(unit) {
            assert forall|i: int, j: int|
                0 <= i < grown.known.len() && 0 <= j < grown.known.len() && i != j implies grown.known[i]
                != grown.known[j] by {
                if i < self.known.len() && j < self.known.len() {
                    assert(self.known[i] != self.known[j]);
                } else if i < self.known.len() {
                    assert(self.known.contains(self.known[i]));
                } else {
                    assert(self.known.contains(self.known[j]));
                }
            }
            assert(grown.known.last() == unit);
            assert forall|other: UnitId| self.known.contains(other) implies grown.known.contains(
                other,
            ) by {
                let i = choose|i: int| 0 <= i < self.known.len() && self.known[i] == other;
                assert(grown.known[i] == other);
            }
        }
    }
}

/// The pool of shared units.
pub struct PoolManager {
    known: Vec<UnitId>,
    free: Option<UnitId>,
    tenants: IdentityMap<UnitId>,
}

impl View for PoolManager {
    type V = PoolState;

    closed spec fn view(&self) -> PoolState {
        PoolState { known: self.known@, free: self.free, tenants: self.tenants@ }
    }
}

impl PoolManager {
    /// The invariant: the representation is sound and the pool it stands
    /// for is well formed.
    pub closed spec fn wf(&self) -> bool {
        &&& self.tenants.wf()
        &&& self@.wf()
    }

    /// A pool without any unit.
    pub fn new() -> (pool: PoolManager)
        ensures
            pool.wf(),
            pool@ == PoolState::empty(),
    {
        let pool = PoolManager { known: Vec::new(), free: None, tenants: IdentityMap::new() };
        assert(pool@.known =~= Seq::<UnitId>::empty());
        pool
    }

    /// The pool with the given units, free unit and tenants; `None` where
    /// these do not make a well-formed pool.
    pub fn from_parts(known: Vec<UnitId>, free: Option<UnitId>, tenants: IdentityMap<UnitId>) -> (r:
        Option<PoolManager>)
        requires
            tenants.wf(),
        ensures
            r.is_some() == (PoolState { known: known@, free, tenants: tenants@ }).wf(),
            r matches Some(pool) ==> pool.wf() && pool@ == (PoolState {
                known: known@,
                free,
                tenants: tenants@,
            }),
    {
        if !list_distinct(&known) {
            return None;
        }
        let free_known = match free {
            Some(unit) => list_contains(&known, &unit),
            None => true,
        };
        if !free_known {
            return None;
        }
        if !tenants.values_all_in(&known) {
            proof {
                let state = PoolState { known: known@, free, tenants: tenants@ };
                let actor = choose|actor: ActorId| #[trigger]
                    tenants@.contains_key(actor) && !known@.contains(tenants@[actor]);
                assert(state.tenants.contains_key(actor));
            }
            return None;
        }
        Some(PoolManager { known, free, tenants })
    }

    /// The pool that a well-formed manager stands for is well formed.
    pub proof fn lemma_wf_state(&self)
        requires
            self.wf(),
        ensures
            self@.wf(),
    {
    }

    /// Whether `unit` is a shared unit under control.
    pub fn is_known(&self, unit: &UnitId) -> (r: bool)
        ensures
            r == self@.known.contains(*unit),
    {
        list_contains(&self.known, unit)
    }

    /// The shared units under control, oldest first.
    pub fn known_units(&self) -> (units: Vec<UnitId>)
        ensures
            units@ == self@.known,
    {
        list_copy(&self.known)
    }

    /// The unit that accepts new tenants, if any does.
    pub fn free_unit(&self) -> (unit: Option<UnitId>)
        ensures
            unit == self@.free,
    {
        self.free
    }

    /// The shared unit that `actor` is a tenant of.
    pub fn unit_of(&self, actor: &ActorId) -> (unit: Option<UnitId>)
        requires
            self.wf(),
        ensures
            unit == self@.tenants.index_opt(*actor),
    {
        self.tenants.get(actor)
    }

    /// The tenants with their units, each tenant once.
    pub fn tenant_entries(&self) -> (entries: Vec<(ActorId, UnitId)>)
        requires
            self.wf(),
        ensures
            keys_distinct(entries@),
            map_of(entries@) == self@.tenants,
    {
        self.tenants.to_entries()
    }

    /// Places `actor` in the free unit and returns that unit; fails with
    /// `NoFreeUnit`, changing nothing, when no unit is free.
    pub fn assign_to_free_unit(&mut self, actor: ActorId) -> (r: Result<UnitId, OrchestratorError>)
        requires
            old(self).wf(),
        ensures
            final(self).wf(),
            (final(self)@, r) == old(self)@.assign_to_free_unit(actor),
    {
        proof {
            self@.lemma_steps_keep_wf(actor, actor);
        }
        match self.free {
            Some(unit) => {
                self.tenants.insert(actor, unit);
                Ok(unit)
            },
            None => Err(OrchestratorError::NoFreeUnit),
        }
    }

    /// Takes a freshly provisioned unit into the pool and makes it the free
    /// unit.
    pub fn register_new_unit(&mut self, unit: UnitId)
        requires
            old(self).wf(),
        ensures
            final(self).wf(),
            final(self)@ == old(self)@.register_new_unit(unit),
    {
        proof {
            self@.lemma_steps_keep_wf(unit, unit);
        }
        if !list_contains(&self.known, &unit) {
            self.known.push(unit);
        }
        self.free = Some(unit);
    }

    /// Handles the report of `reporting_unit` that it is full: when it is
    /// the free unit, or none is free, no unit is free afterwards and a
    /// replacement is due; any other report changes nothing.
    pub fn on_capacity_exhausted(&mut self, reporting_unit: UnitId) -> (action: CapacityAction)
        requires
            old(self).wf(),
        ensures
            final(self).wf(),
            (final(self)@, action) == old(self)@.on_capacity_exhausted(reporting_unit),
    {
        let counts = match self.free {
            Some(unit) => unit.same(&reporting_unit),
            None => true,
        };
        if counts {
            self.free = None;
            CapacityAction::ProvisionReplacement
        } else {
            CapacityAction::Ignore
        }
    }

    /// Records that `unit` has taken `actor` in: fails with `UnknownUnit`
    /// when `unit` is not in the pool, else with `AlreadyRegistered` when
    /// `actor` is a tenant already.
    pub fn register_user(&mut self, unit: UnitId, actor: ActorId) -> (r: Result<
        (),
        OrchestratorError,
    >)
        requires
            old(self).wf(),
        ensures
            final(self).wf(),
            (final(self)@, r) == old(self)@.register_user(unit, actor),
    {
        proof {
            self@.lemma_steps_keep_wf(unit, actor);
        }
        if !list_contains(&self.known, &unit) {
            return Err(OrchestratorError::UnknownUnit);
        }
        if self.tenants.contains_key(&actor) {
            return Err(OrchestratorError::AlreadyRegistered);
        }
        self.tenants.insert(actor, unit);
        Ok(())
    }

    /// Takes the assignment of `actor` out of the pool and returns the unit
    /// it lived in.
    pub fn remove_user(&mut self, actor: &ActorId) -> (unit: Option<UnitId>)
        requires
            old(self).wf(),
        ensures
            final(self).wf(),
            (final(self)@, unit) == old(self)@.remove_user(*actor),
    {
        proof {
            self@.lemma_steps_keep_wf(*actor, *actor);
        }
        self.tenants.remove(actor)
    }
}

} // verus!
