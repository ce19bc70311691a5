//! What holds of the orchestrator across requests, proved of the states
//! and steps that the contracts of its functions speak of.

use crate::error::OrchestratorError;
use crate::limiter::{elapsed, LimiterState, DEFAULT_MIN_CREATE_INTERVAL_NS};
use crate::orchestrator::{Placement, State};
use crate::pool::CapacityAction;
use crate::principal::{ActorId, UnitId};
use crate::snapshot::{restored, Snapshot};
use vstd::prelude::*;

verus! {

/// The state an orchestrator starts in is well formed. Every request keeps
/// it so, as `State::lemma_requests_keep_wf` shows.
pub proof fn law_empty_state_is_wf(min_interval: u64)
    ensures
        State::empty(min_interval).wf(),
{
}

/// An actor that owns a dedicated unit is answered with that unit, at any
/// time and without any change of the state.
pub proof fn law_owned_unit_is_returned(state: State, actor: ActorId, now: u64)
    requires
        state.owners.contains_key(actor),
    ensures
        state.get_or_create_dedicated_unit(actor, now) == (
            state,
            Ok::<Placement, OrchestratorError>(Placement::Existing(state.owners[actor])),
        ),
{
}

/// Two requests for a dedicated unit in a row are answered with the same
/// unit: whatever unit the first request ends with, be it the one the actor
/// had or the one committed for it, the second request returns it.
pub proof fn law_dedicated_unit_is_stable(
    state: State,
    actor: ActorId,
    first: u64,
    provisioned: UnitId,
    second: u64,
)
    requires
        state.wf(),
    ensures
        ({
            let (requested, answer) = state.get_or_create_dedicated_unit(actor, first);
            match answer {
                Ok(Placement::Existing(unit)) => requested.get_or_create_dedicated_unit(
                    actor,
                    second,
                ).1 == Ok::<Placement, OrchestratorError>(Placement::Existing(unit)),
                Ok(Placement::Provision) => {
                    let (committed, outcome) = requested.commit_dedicated_unit(actor, provisioned);
                    outcome matches Ok(unit) ==> committed.get_or_create_dedicated_unit(
                        actor,
                        second,
                    ) == (committed, Ok::<Placement, OrchestratorError>(Placement::Existing(unit)))
                },
                _ => true,
            }
        }),
{
}

/// Of two units committed for one actor the first stays: the second commit
/// returns the first unit and changes nothing.
pub proof fn law_first_commit_wins(state: State, actor: ActorId, first: UnitId, second: UnitId)
    requires
        state.wf(),
        state.commit_dedicated_unit(actor, first).1 == Ok::<UnitId, OrchestratorError>(first),
    ensures
        ({
            let committed = state.commit_dedicated_unit(actor, first).0;
            committed.commit_dedicated_unit(actor, second) == (
                committed,
                Ok::<UnitId, OrchestratorError>(first),
            )
        }),
{
}

/// After an actor has left its shared unit nothing of the old assignment
/// is left: its next request for a shared unit places it in the free unit
/// of that moment, or, with no unit free, asks for a new one unless the
/// throttle turns it down.
pub proof fn law_delete_then_rejoin(state: State, actor: ActorId, now: u64)
    requires
        state.wf(),
        state.pool.tenants.contains_key(actor),
    ensures
        ({
            let (left, outcome) = state.delete_user(actor);
            let (rejoined, answer) = left.get_or_create_shared_unit(actor, now);
            &&& outcome == Ok::<UnitId, OrchestratorError>(state.pool.tenants[actor])
            &&& !left.pool.tenants.contains_key(actor)
            &&& left.pool.free == state.pool.free
            &&& match state.pool.free {
                Some(unit) => {
                    &&& answer == Ok::<Placement, OrchestratorError>(Placement::Assigned(unit))
                    &&& rejoined.pool.tenants == state.pool.tenants.insert(actor, unit)
                },
                None => if state.limiter.throttled(actor, now) {
                    answer == Err::<Placement, OrchestratorError>(OrchestratorError::RateLimited)
                } else {
                    answer == Ok::<Placement, OrchestratorError>(Placement::Provision)
                },
            }
        }),
{
}

/// With no unit free, an actor that has left its shared unit and asks
/// again gets the unit that is then provisioned and committed for it,
/// provided the throttle lets the request through.
pub proof fn law_delete_then_provision(state: State, actor: ActorId, now: u64, fresh: UnitId)
    requires
        state.wf(),
        state.pool.tenants.contains_key(actor),
        state.pool.free is None,
        !state.limiter.throttled(actor, now),
    ensures
        ({
            let left = state.delete_user(actor).0;
            let (asked, answer) = left.get_or_create_shared_unit(actor, now);
            let (committed, outcome) = asked.commit_shared_unit(actor, fresh);
            &&& answer == Ok::<Placement, OrchestratorError>(Placement::Provision)
            &&& outcome == fresh
            &&& committed.pool.tenants[actor] == fresh
            &&& committed.pool.free == Some(fresh)
        }),
{
}

/// Of two creation requests of one actor, the first of which passed the
/// throttle, the second is turned down exactly when less than the interval
/// has passed since the first.
pub proof fn law_throttle_window(limiter: LimiterState, actor: ActorId, first: u64, second: u64)
    requires
        !limiter.throttled(actor, first),
    ensures
        ({
            let (recorded, passed) = limiter.check_and_record(actor, first);
            let again = recorded.check_and_record(actor, second).1;
            &&& passed == Ok::<(), OrchestratorError>(())
            &&& elapsed(first, second) < limiter.min_interval ==> again == Err::<
                (),
                OrchestratorError,
            >(OrchestratorError::RateLimited)
            &&& elapsed(first, second) >= limiter.min_interval ==> again == Ok::<
                (),
                OrchestratorError,
            >(())
        }),
{
}

/// Two requests of one actor for a dedicated unit, with no unit committed
/// in between: when the first one asks for provisioning, the second fails
/// with `RateLimited` if less than the interval has passed, and asks for
/// provisioning again if not.
pub proof fn law_creation_requests_are_throttled(
    state: State,
    actor: ActorId,
    first: u64,
    second: u64,
)
    requires
        state.wf(),
        state.get_or_create_dedicated_unit(actor, first).1 == Ok::<Placement, OrchestratorError>(
            Placement::Provision,
        ),
    ensures
        ({
            let asked = state.get_or_create_dedicated_unit(actor, first).0;
            let again = asked.get_or_create_dedicated_unit(actor, second).1;
            &&& elapsed(first, second) < state.limiter.min_interval ==> again == Err::<
                Placement,
                OrchestratorError,
            >(OrchestratorError::RateLimited)
            &&& elapsed(first, second) >= state.limiter.min_interval ==> again == Ok::<
                Placement,
                OrchestratorError,
            >(Placement::Provision)
        }),
{
}

/// The same for a place in a shared unit while no unit is free.
pub proof fn law_shared_creation_requests_are_throttled(
    state: State,
    actor: ActorId,
    first: u64,
    second: u64,
)
    requires
        state.wf(),
        state.get_or_create_shared_unit(actor, first).1 == Ok::<Placement, OrchestratorError>(
            Placement::Provision,
        ),
    ensures
        ({
            let asked = state.get_or_create_shared_unit(actor, first).0;
            let again = asked.get_or_create_shared_unit(actor, second).1;
            &&& elapsed(first, second) < state.limiter.min_interval ==> again == Err::<
                Placement,
                OrchestratorError,
            >(OrchestratorError::RateLimited)
            &&& elapsed(first, second) >= state.limiter.min_interval ==> again == Ok::<
                Placement,
                OrchestratorError,
            >(Placement::Provision)
        }),
{
}

/// A report of exhaustion from the free unit clears the free unit, leaves
/// everything else as it is and asks for one replacement. A report from
/// any other unit while some unit is free fails with `Unauthorized` and
/// changes nothing.
pub proof fn law_exhaustion_report(state: State, caller: UnitId)
    requires
        state.wf(),
        state.pool.free is Some,
    ensures
        ({
            let (after, answer) = state.notify_capacity_exhausted(caller);
            if state.pool.free == Some(caller) {
                &&& answer == Ok::<CapacityAction, OrchestratorError>(
                    CapacityAction::ProvisionReplacement,
                )
                &&& after.pool.free is None
                &&& after.pool.known == state.pool.known
                &&& after.pool.tenants == state.pool.tenants
                &&& after.owners == state.owners
                &&& after.limiter == state.limiter
            } else {
                &&& answer == Err::<CapacityAction, OrchestratorError>(
                    OrchestratorError::Unauthorized,
                )
                &&& after == state
            }
        }),
{
}

/// A registration from a caller that is not a known unit fails with
/// `UnknownUnit`; one from a known unit for an actor that is a tenant
/// already fails with `AlreadyRegistered`. Neither changes anything.
pub proof fn law_registration_is_checked(state: State, caller: UnitId, actor: ActorId)
    ensures
        !state.pool.known.contains(caller) ==> state.register_shared_user(caller, actor) == (
            state,
            Err::<(), OrchestratorError>(OrchestratorError::UnknownUnit),
        ),
        state.pool.known.contains(caller) && state.pool.tenants.contains_key(actor)
            ==> state.register_shared_user(caller, actor) == (
            state,
            Err::<(), OrchestratorError>(OrchestratorError::AlreadyRegistered),
        ),
{
}

/// A registration succeeds exactly when the caller is a known unit and the
/// actor is no tenant yet, whatever the actor owns. It then makes the actor
/// a tenant of the caller and changes nothing else; a registration that
/// fails changes nothing at all.
pub proof fn law_registration_succeeds(state: State, caller: UnitId, actor: ActorId)
    ensures
        ({
            let (after, outcome) = state.register_shared_user(caller, actor);
            &&& outcome is Ok <==> state.pool.known.contains(caller)
                && !state.pool.tenants.contains_key(actor)
            &&& outcome is Ok ==> {
                &&& after.pool.tenants == state.pool.tenants.insert(actor, caller)
                &&& after.pool.known == state.pool.known
                &&& after.pool.free == state.pool.free
                &&& after.owners == state.owners
                &&& after.limiter == state.limiter
            }
            &&& outcome is Err ==> after == state
        }),
{
}

/// The dedicated and the shared path do not look at each other: a request
/// on one of them is answered as if the actor held nothing on the other,
/// and leaves what it holds there as it is.
pub proof fn law_paths_are_independent(
    state: State,
    other: State,
    actor: ActorId,
    unit: UnitId,
    now: u64,
)
    requires
        state.limiter == other.limiter,
    ensures
        state.owners == other.owners ==> {
            &&& state.get_or_create_dedicated_unit(actor, now).1
                == other.get_or_create_dedicated_unit(actor, now).1
            &&& state.commit_dedicated_unit(actor, unit).1 == other.commit_dedicated_unit(
                actor,
                unit,
            ).1
        },
        state.pool == other.pool ==> {
            &&& state.get_or_create_shared_unit(actor, now).1 == other.get_or_create_shared_unit(
                actor,
                now,
            ).1
            &&& state.commit_shared_unit(actor, unit).1 == other.commit_shared_unit(actor, unit).1
            &&& state.register_shared_user(unit, actor).1 == other.register_shared_user(
                unit,
                actor,
            ).1
            &&& state.delete_user(actor).1 == other.delete_user(actor).1
        },
        state.get_or_create_dedicated_unit(actor, now).0.pool == state.pool,
        state.commit_dedicated_unit(actor, unit).0.pool == state.pool,
        state.get_or_create_shared_unit(actor, now).0.owners == state.owners,
        state.commit_shared_unit(actor, unit).0.owners == state.owners,
        state.register_shared_user(unit, actor).0.owners == state.owners,
        state.delete_user(actor).0.owners == state.owners,
{
}

/// An actor that is no tenant and finds no unit free is turned down with
/// `RateLimited` when its last creation request is too recent, whatever it
/// owns; nothing is recorded and nothing else changes.
pub proof fn law_throttled_shared_request_changes_nothing(state: State, actor: ActorId, now: u64)
    requires
        !state.pool.tenants.contains_key(actor),
        state.pool.free is None,
        state.limiter.throttled(actor, now),
    ensures
        state.get_or_create_shared_unit(actor, now) == (
            state,
            Err::<Placement, OrchestratorError>(OrchestratorError::RateLimited),
        ),
{
}

/// An orchestrator that resumes without a snapshot, or with one that is not
/// valid, starts as a new one does: empty, with the usual interval between
/// creation requests.
pub proof fn law_restore_without_snapshot(snapshot: Snapshot)
    requires
        !snapshot.valid(),
    ensures
        restored(None) == State::empty(DEFAULT_MIN_CREATE_INTERVAL_NS),
        restored(Some(snapshot)) == State::empty(DEFAULT_MIN_CREATE_INTERVAL_NS),
{
}

/// A state that was stored in a snapshot and read back is the same state.
pub proof fn law_snapshot_round_trip(state: State, snapshot: Snapshot)
    requires
        state.wf(),
        snapshot.valid(),
        snapshot@ == state,
    ensures
        restored(Some(snapshot)) == state,
{
}

/// No request takes a unit out of the pool or changes the order of the
/// units: the list of known units only grows at its end.
pub proof fn law_known_units_only_grow(state: State, actor: ActorId, unit: UnitId, now: u64)
    ensures
        state.get_or_create_dedicated_unit(actor, now).0.pool.known == state.pool.known,
        state.commit_dedicated_unit(actor, unit).0.pool.known == state.pool.known,
        state.get_or_create_shared_unit(actor, now).0.pool.known == state.pool.known,
        state.pool.known.is_prefix_of(state.register_shared_unit(unit).pool.known),
        state.pool.known.is_prefix_of(state.commit_shared_unit(actor, unit).0.pool.known),
        state.notify_capacity_exhausted(unit).0.pool.known == state.pool.known,
        state.register_shared_user(unit, actor).0.pool.known == state.pool.known,
        state.delete_user(actor).0.pool.known == state.pool.known,
{
}

/// An assignment, once made, is never changed by a request: an owner keeps
/// its dedicated unit through every request, and a tenant keeps its shared
/// unit through every request but its own deletion.
pub proof fn law_assignments_stay(
    state: State,
    assigned: ActorId,
    actor: ActorId,
    unit: UnitId,
    now: u64,
)
    requires
        state.wf(),
    ensures
        state.owners.contains_key(assigned) ==> {
            let kept = |after: State|
                after.owners.contains_key(assigned) && after.owners[assigned]
                    == state.owners[assigned];
            &&& kept(state.get_or_create_dedicated_unit(actor, now).0)
            &&& kept(state.commit_dedicated_unit(actor, unit).0)
            &&& kept(state.get_or_create_shared_unit(actor, now).0)
            &&& kept(state.register_shared_unit(unit))
            &&& kept(state.commit_shared_unit(actor, unit).0)
            &&& kept(state.notify_capacity_exhausted(unit).0)
            &&& kept(state.register_shared_user(unit, actor).0)
            &&& kept(state.delete_user(actor).0)
        },
        state.pool.tenants.contains_key(assigned) ==> {
            let kept = |after: State|
                after.pool.tenants.contains_key(assigned) && after.pool.tenants[assigned]
                    == state.pool.tenants[assigned];
            &&& kept(state.get_or_create_dedicated_unit(actor, now).0)
            &&& kept(state.commit_dedicated_unit(actor, unit).0)
            &&& kept(state.get_or_create_shared_unit(actor, now).0)
            &&& kept(state.register_shared_unit(unit))
            &&& kept(state.commit_shared_unit(actor, unit).0)
            &&& kept(state.notify_capacity_exhausted(unit).0)
            &&& kept(state.register_shared_user(unit, actor).0)
            &&& actor != assigned ==> kept(state.delete_user(actor).0)
        },
{
}

} // verus!
