//! The throttle on unit-creation requests: one request per actor and
//! interval.

use crate::error::OrchestratorError;
use crate::identity_map::IdentityMap;
use crate::principal::ActorId;
use vstd::prelude::*;

verus! {

/// The interval a fresh limiter enforces, in nanoseconds.
pub const DEFAULT_MIN_CREATE_INTERVAL_NS: u64 = 5_000_000_000;

/// The time that has passed between `last` and `now`; none when the clock
/// reads earlier than `last`.
pub open spec fn elapsed(last: u64, now: u64) -> int {
    if now >= last {
        now - last
    } else {
        0
    }
}

/// What the limiter knows: the time of each actor's last creation request
/// and the interval that must pass before the next one.
pub struct LimiterState {
    pub ledger: Map<ActorId, u64>,
    pub min_interval: u64,
}

impl LimiterState {
    /// A request of `actor` at `now` comes too soon after its last one.
    pub open spec fn throttled(self, actor: ActorId, now: u64) -> bool {
        self.ledger.contains_key(actor) && elapsed(self.ledger[actor], now) < self.min_interval
    }

    /// The state after a request of `actor` has been let through at `now`.
    pub open spec fn record(self, actor: ActorId, now: u64) -> LimiterState {
        LimiterState { ledger: self.ledger.insert(actor, now), min_interval: self.min_interval }
    }

    /// The outcome of a creation request of `actor` at `now`: it is turned
    /// down and nothing changes, or it passes and its time is recorded.
    pub open spec fn check_and_record(self, actor: ActorId, now: u64) -> (
        LimiterState,
        Result<(), OrchestratorError>,
    ) {
        if self.throttled(actor, now) {
            (self, Err(OrchestratorError::RateLimited))
        } else {
            (self.record(actor, now), Ok(()))
        }
    }
}

/// The per-actor throttle.
pub struct RateLimiter {
    ledger: IdentityMap<u64>,
    min_interval: u64,
}

impl View for RateLimiter {
    type V = LimiterState;

    closed spec fn view(&self) -> LimiterState {
        LimiterState { ledger: self.ledger@, min_interval: self.min_interval }
    }
}

impl RateLimiter {
    /// The invariant of the representation.
    pub closed spec fn wf(&self) -> bool {
        self.ledger.wf()
    }

    /// A limiter that has seen no request.
    pub fn new(min_interval: u64) -> (limiter: RateLimiter)
        ensures
            limiter.wf(),
            limiter@.ledger == Map::<ActorId, u64>::empty(),
            limiter@.min_interval == min_interval,
    {
        RateLimiter { ledger: IdentityMap::new(), min_interval }
    }

    /// A limiter with the given ledger; `None` where an actor occurs twice
    /// in it.
    pub fn from_entries(entries: Vec<(ActorId, u64)>, min_interval: u64) -> (r: Option<RateLimiter>)
        ensures
            r.is_some() == crate::identity_map::keys_distinct(entries@),
            r matches Some(limiter) ==> limiter.wf() && limiter@ == (LimiterState {
                ledger: crate::identity_map::map_of(entries@),
                min_interval,
            }),
    {
        match IdentityMap::from_entries(entries) {
            Some(ledger) => Some(RateLimiter { ledger, min_interval }),
            None => None,
        }
    }

    /// The interval that must pass between two creation requests of one
    /// actor.
    pub fn min_interval(&self) -> (interval: u64)
        ensures
            interval == self@.min_interval,
    {
        self.min_interval
    }

    /// The time of the last creation request of `actor` that was let
    /// through.
    pub fn last_request(&self, actor: &ActorId) -> (last: Option<u64>)
        requires
            self.wf(),
        ensures
            last == self@.ledger.index_opt(*actor),
    {
        self.ledger.get(actor)
    }

    /// The ledger, each actor once.
    pub fn to_entries(&self) -> (entries: Vec<(ActorId, u64)>)
        requires
            self.wf(),
        ensures
            crate::identity_map::keys_distinct(entries@),
            crate::identity_map::map_of(entries@) == self@.ledger,
    {
        self.ledger.to_entries()
    }

    /// Lets a creation request of `actor` at `now` through, or turns it
    /// down because the last one is too recent. A request that passes is
    /// recorded at once, whatever becomes of it later.
    pub fn check_and_record(&mut self, actor: ActorId, now: u64) -> (r: Result<
        (),
        OrchestratorError,
    >)
        requires
            old(self).wf(),
        ensures
            final(self).wf(),
            (final(self)@, r) == old(self)@.check_and_record(actor, now),
    {
        match self.ledger.get(&actor) {
            Some(last) => {
                if now.saturating_sub(last) < self.min_interval {
                    return Err(OrchestratorError::RateLimited);
                }
            },
            None => {},
        }
        self.ledger.insert(actor, now);
        Ok(())
    }
}

} // verus!
