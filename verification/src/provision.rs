//! Provisioning of a new unit: what is asked of the provisioning service,
//! and the order of the steps.
//!
//! A unit is allocated with a budget, its image is installed and, where the
//! plan asks for it, an initialization message is delivered. Each step is
//! a remote call made elsewhere; the sequence here says which call comes
//! next after each outcome. A unit is released for commit only after every
//! step has succeeded, and a failure ends the sequence for good.

use crate::error::OrchestratorError;
use crate::principal::{list_copy, Principal, UnitId};
use vstd::prelude::*;

verus! {

/// The budget a new unit is created with.
pub const CREATE_CYCLES: u128 = 500_000_000_000;

/// What is asked of the provisioning service for one unit.
pub struct ProvisionPlan {
    /// The budget the unit starts with.
    pub budget: u128,
    /// The identities that may control the unit.
    pub controllers: Vec<Principal>,
    /// The identity the unit is told of as its owner.
    pub owner: Principal,
    /// The identity of the orchestrator, which the unit is told of too.
    pub orchestrator: Principal,
    /// Whether the initialization message must be delivered before the
    /// unit is committed.
    pub handshake: bool,
}

/// The owner a shared unit is told of: the third of the controllers, which
/// is the configured administrator, or else the orchestrator itself.
pub open spec fn shared_owner(controllers: Seq<Principal>, orchestrator: Principal) -> Principal {
    if controllers.len() > 2 {
        controllers[2]
    } else {
        orchestrator
    }
}

impl ProvisionPlan {
    /// The plan for the dedicated unit of `owner`: controlled by `owner`
    /// and the orchestrator.
    pub fn dedicated(owner: Principal, orchestrator: Principal) -> (plan: ProvisionPlan)
        ensures
            plan.budget == CREATE_CYCLES,
            plan.controllers@ == seq![owner, orchestrator],
            plan.owner == owner,
            plan.orchestrator == orchestrator,
            plan.handshake,
    {
        let mut controllers: Vec<Principal> = Vec::new();
        controllers.push(owner);
        controllers.push(orchestrator);
        assert(controllers@ =~= seq![owner, orchestrator]);
        ProvisionPlan { budget: CREATE_CYCLES, controllers, owner, orchestrator, handshake: true }
    }

    /// The plan for a shared unit: controlled by `controllers`, and told of
    /// the administrator among them as its owner.
    pub fn shared(controllers: &Vec<Principal>, orchestrator: Principal) -> (plan: ProvisionPlan)
        ensures
            plan.budget == CREATE_CYCLES,
            plan.controllers@ == controllers@,
            plan.owner == shared_owner(controllers@, orchestrator),
            plan.orchestrator == orchestrator,
            plan.handshake,
    {
        let copy = list_copy(controllers);
        let owner = if controllers.len() > 2 {
            controllers[2]
        } else {
            orchestrator
        };
        ProvisionPlan {
            budget: CREATE_CYCLES,
            controllers: copy,
            owner,
            orchestrator,
            handshake: true,
        }
    }
}

/// How far the provisioning of one unit has come.
#[derive(Clone, Copy, Debug, PartialEq, Eq)]
pub enum ProvisionStage {
    /// The unit has been asked for.
    Allocating,
    /// The unit exists and its image is being installed.
    Installing(UnitId),
    /// The image is installed and the initialization message is under way.
    Initializing(UnitId),
    /// Every step succeeded: the unit is to be committed.
    Ready(UnitId),
    /// A step failed; nothing is committed.
    Failed(OrchestratorError),
}

/// What the provisioning service reported.
#[derive(Clone, Copy, Debug, PartialEq, Eq)]
pub enum ProvisionEvent {
    /// The unit was allocated under this identity.
    UnitCreated(UnitId),
    /// The budget did not suffice to allocate a unit.
    InsufficientBudget,
    /// The platform failed the call.
    PlatformError,
    /// The image was installed.
    ImageInstalled,
    /// The image could not be installed.
    InstallFailure,
    /// The initialization message was delivered.
    InitDelivered,
    /// The initialization message was not delivered.
    InitFailed,
}

/// What is to be done next.
#[derive(Clone, Copy, Debug, PartialEq, Eq)]
pub enum ProvisionAction {
    /// Allocate a unit.
    CreateUnit,
    /// Install the image into this unit.
    InstallImage(UnitId),
    /// Deliver the initialization message to this unit.
    SendInit(UnitId),
    /// Commit this unit to the orchestrator.
    Commit(UnitId),
    /// Give up and report this failure.
    Abort(OrchestratorError),
    /// The sequence has ended before; nothing is left to do.
    Halt,
}

impl ProvisionStage {
    /// The sequence has ended, in success or failure.
    pub open spec fn is_final(self) -> bool {
        self is Ready || self is Failed
    }

    /// The stage that follows `self` once `event` has been reported, and
    /// what is to be done then. An event that the stage does not wait for
    /// fails the sequence with `PlatformError`.
    pub open spec fn step(self, handshake: bool, event: ProvisionEvent) -> (
        ProvisionStage,
        ProvisionAction,
    ) {
        match (self, event) {
            (ProvisionStage::Ready(_), _) => (self, ProvisionAction::Halt),
            (ProvisionStage::Failed(_), _) => (self, ProvisionAction::Halt),
            (ProvisionStage::Allocating, ProvisionEvent::UnitCreated(unit)) => (
                ProvisionStage::Installing(unit),
                ProvisionAction::InstallImage(unit),
            ),
            (ProvisionStage::Allocating, ProvisionEvent::InsufficientBudget) => failure(
                OrchestratorError::InsufficientBudget,
            ),
            (ProvisionStage::Installing(unit), ProvisionEvent::ImageInstalled) => if handshake {
                (ProvisionStage::Initializing(unit), ProvisionAction::SendInit(unit))
            } else {
                (ProvisionStage::Ready(unit), ProvisionAction::Commit(unit))
            },
            (ProvisionStage::Installing(_), ProvisionEvent::InstallFailure) => failure(
                OrchestratorError::InstallFailure,
            ),
            (ProvisionStage::Initializing(unit), ProvisionEvent::InitDelivered) => (
                ProvisionStage::Ready(unit),
                ProvisionAction::Commit(unit),
            ),
            _ => failure(OrchestratorError::PlatformError),
        }
    }

    /// The stage reached from `self` after all of `events`, in their order.
    pub open spec fn run(self, handshake: bool, events: Seq<ProvisionEvent>) -> ProvisionStage
        decreases events.len(),
    {
        if events.len() == 0 {
            self
        } else {
            self.step(handshake, events[0]).0.run(handshake, events.drop_first())
        }
    }

    /// The stage a sequence starts in, with the first thing to do.
    pub fn start() -> (r: (ProvisionStage, ProvisionAction))
        ensures
            r == (ProvisionStage::Allocating, ProvisionAction::CreateUnit),
    {
        (ProvisionStage::Allocating, ProvisionAction::CreateUnit)
    }

    /// Whether the sequence has ended.
    pub fn finished(self) -> (r: bool)
        ensures
            r == self.is_final(),
    {
        match self {
            ProvisionStage::Ready(_) => true,
            ProvisionStage::Failed(_) => true,
            _ => false,
        }
    }

    /// Moves on from `self` after `event` has been reported: returns the
    /// next stage and what is to be done.
    pub fn advance(self, handshake: bool, event: ProvisionEvent) -> (r: (
        ProvisionStage,
        ProvisionAction,
    ))
        ensures
            r == self.step(handshake, event),
    {
        match self {
            ProvisionStage::Ready(_) => (self, ProvisionAction::Halt),
            ProvisionStage::Failed(_) => (self, ProvisionAction::Halt),
            ProvisionStage::Allocating => match event {
                ProvisionEvent::UnitCreated(unit) => (
                    ProvisionStage::Installing(unit),
                    ProvisionAction::InstallImage(unit),
                ),
                ProvisionEvent::InsufficientBudget => fail(OrchestratorError::InsufficientBudget),
                _ => fail(OrchestratorError::PlatformError),
            },
            ProvisionStage::Installing(unit) => match event {
                ProvisionEvent::ImageInstalled => if handshake {
                    (ProvisionStage::Initializing(unit), ProvisionAction::SendInit(unit))
                } else {
                    (ProvisionStage::Ready(unit), ProvisionAction::Commit(unit))
                },
                ProvisionEvent::InstallFailure => fail(OrchestratorError::InstallFailure),
                _ => fail(OrchestratorError::PlatformError),
            },
            ProvisionStage::Initializing(unit) => match event {
                ProvisionEvent::InitDelivered => (
                    ProvisionStage::Ready(unit),
                    ProvisionAction::Commit(unit),
                ),
                _ => fail(OrchestratorError::PlatformError),
            },
        }
    }
}

/// The end of a sequence in the failure `error`.
pub open spec fn failure(error: OrchestratorError) -> (ProvisionStage, ProvisionAction) {
    (ProvisionStage::Failed(error), ProvisionAction::Abort(error))
}

fn fail(error: OrchestratorError) -> (r: (ProvisionStage, ProvisionAction))
    ensures
        r == failure(error),
{
    (ProvisionStage::Failed(error), ProvisionAction::Abort(error))
}

/// The reports that carry a sequence to the commit of `unit`: allocation,
/// installation and, with a handshake, delivery of the initialization
/// message.
pub open spec fn successful_run(handshake: bool, unit: UnitId) -> Seq<ProvisionEvent> {
    if handshake {
        seq![
            ProvisionEvent::UnitCreated(unit),
            ProvisionEvent::ImageInstalled,
            ProvisionEvent::InitDelivered,
        ]
    } else {
        seq![ProvisionEvent::UnitCreated(unit), ProvisionEvent::ImageInstalled]
    }
}

/// Once a sequence has ended, no report moves it.
pub proof fn lemma_final_stage_stays(
    stage: ProvisionStage,
    handshake: bool,
    events: Seq<ProvisionEvent>,
)
    requires
        stage.is_final(),
    ensures
        stage.run(handshake, events) == stage,
    decreases events.len(),
{
    if events.len() > 0 {
        lemma_final_stage_stays(stage, handshake, events.drop_first());
    }
}

/// A unit is released for commit only after every step has succeeded: a
/// sequence of reports ends in `Ready(unit)` exactly when it begins with
/// the successful run for `unit`.
pub proof fn lemma_commit_needs_every_step(
    handshake: bool,
    events: Seq<ProvisionEvent>,
    unit: UnitId,
)
    ensures
        ProvisionStage::Allocating.run(handshake, events) == ProvisionStage::Ready(unit)
            <==> successful_run(handshake, unit).is_prefix_of(events),
{
    let good = successful_run(handshake, unit);
    let s0 = ProvisionStage::Allocating;
    if events.len() >= 1 {
        let s1 = s0.step(handshake, events[0]).0;
        let rest1 = events.drop_first();
        assert(s0.run(handshake, events) == s1.run(handshake, rest1));
        if s1.is_final() {
            lemma_final_stage_stays(s1, handshake, rest1);
        } else if rest1.len() >= 1 {
            let s2 = s1.step(handshake, rest1[0]).0;
            let rest2 = rest1.drop_first();
            assert(rest1[0] == events[1]);
            assert(s1.run(handshake, rest1) == s2.run(handshake, rest2));
            if s2.is_final() {
                lemma_final_stage_stays(s2, handshake, rest2);
            } else if rest2.len() >= 1 {
                let s3 = s2.step(handshake, rest2[0]).0;
                let rest3 = rest2.drop_first();
                assert(rest2[0] == events[2]);
                assert(s2.run(handshake, rest2) == s3.run(handshake, rest3));
                lemma_final_stage_stays(s3, handshake, rest3);
            }
        }
    }
    if good.is_prefix_of(events) {
        assert(events[0] == good[0]);
        assert(events[1] == good[1]);
        if handshake {
            assert(events[2] == good[2]);
        }
    }
    if s0.run(handshake, events) == ProvisionStage::Ready(unit) {
        assert(good =~= events.subrange(0, good.len() as int));
    }
}

} // verus!
