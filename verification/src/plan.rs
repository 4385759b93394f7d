//! What the physics plugin sets up when it is added to an app: the types it
//! registers for reflection, the state it starts in, how its two system sets
//! are gated, where each of its systems runs, and which runs before which.
//!
//! The plan holds plain values only; the Bevy integration builds the app from it.
use vstd::prelude::*;

use crate::markers::PhysicsPlugin;
use crate::schedule::{
    fixed_update_set_config, initial_state, update_set_config, PhysicsSimulationState,
    PhysicsSystem, SetConfig,
};

verus! {

/// The two schedules the plugin adds work to.
#[derive(Debug, Clone, Copy, PartialEq, Eq, Hash, Structural)]
pub enum PhysicsSchedule {
    /// Runs once per rendered frame.
    Update,
    /// Runs on the fixed timestep.
    FixedUpdate,
}

/// Component types the plugin registers for reflection.
#[derive(Debug, Clone, Copy, PartialEq, Eq, Hash, Structural)]
pub enum ReflectedType {
    PhysicsMaterial,
    Mass,
    Velocity2,
    Force2,
    Position2,
    Rotation2,
    CircleCollider,
}

/// The plugin's systems.
#[derive(Debug, Clone, Copy, PartialEq, Eq, Hash, Structural)]
pub enum SystemFn {
    /// Propagates position and rotation to the transform, smoothed by overstep.
    Update,
    /// Integrates linear physics.
    FixedUpdate,
    /// Integrates angular physics.
    FixedUpdateAngular,
    /// Applies child forces on their parents.
    FixedUpdateChildren,
}

/// A point in a frame that a system can be ordered against: one of the
/// plugin's systems, or the engine's transform propagation.
#[derive(Debug, Clone, Copy, PartialEq, Eq, Hash, Structural)]
pub enum Step {
    System(SystemFn),
    TransformPropagation,
}

/// A set configured in a schedule.
#[derive(Debug, Clone, Copy, PartialEq, Eq, Structural)]
pub struct SetPlacement {
    pub schedule: PhysicsSchedule,
    pub config: SetConfig,
}

/// A system added to a schedule, inside a set.
#[derive(Debug, Clone, Copy, PartialEq, Eq, Structural)]
pub struct Placement {
    pub system: SystemFn,
    pub schedule: PhysicsSchedule,
    pub set: PhysicsSystem,
}

/// `first` runs before `second` whenever both run.
#[derive(Debug, Clone, Copy, PartialEq, Eq, Structural)]
pub struct RunsBefore {
    pub first: SystemFn,
    pub second: Step,
}

/// Everything the plugin sets up.
#[derive(Debug, PartialEq, Eq)]
pub struct PhysicsPlan {
    /// Types registered for reflection, in registration order.
    pub registered: Vec<ReflectedType>,
    /// The state the simulation is initialised to.
    pub initial_state: PhysicsSimulationState,
    /// The configured system sets.
    pub sets: Vec<SetPlacement>,
    /// The added systems.
    pub systems: Vec<Placement>,
    /// Ordering constraints between systems.
    pub order: Vec<RunsBefore>,
}

pub open spec fn planned_registrations() -> Seq<ReflectedType> {
    seq![
        ReflectedType::PhysicsMaterial,
        ReflectedType::Mass,
        ReflectedType::Velocity2,
        ReflectedType::Force2,
        ReflectedType::Position2,
        ReflectedType::Rotation2,
        ReflectedType::CircleCollider,
    ]
}

pub open spec fn planned_sets() -> Seq<SetPlacement> {
    seq![
        SetPlacement { schedule: PhysicsSchedule::FixedUpdate, config: fixed_update_set_config() },
        SetPlacement { schedule: PhysicsSchedule::Update, config: update_set_config() },
    ]
}

pub open spec fn planned_systems() -> Seq<Placement> {
    seq![
        Placement {
            system: SystemFn::Update,
            schedule: PhysicsSchedule::Update,
            set: PhysicsSystem::UpdateTransform,
        },
        Placement {
            system: SystemFn::FixedUpdateChildren,
            schedule: PhysicsSchedule::FixedUpdate,
            set: PhysicsSystem::ApplyForces,
        },
        Placement {
            system: SystemFn::FixedUpdate,
            schedule: PhysicsSchedule::FixedUpdate,
            set: PhysicsSystem::ApplyForces,
        },
        Placement {
            system: SystemFn::FixedUpdateAngular,
            schedule: PhysicsSchedule::FixedUpdate,
            set: PhysicsSystem::ApplyForces,
        },
    ]
}

pub open spec fn planned_order() -> Seq<RunsBefore> {
    seq![
        RunsBefore { first: SystemFn::Update, second: Step::TransformPropagation },
        RunsBefore {
            first: SystemFn::FixedUpdateChildren,
            second: Step::System(SystemFn::FixedUpdate),
        },
        RunsBefore {
            first: SystemFn::FixedUpdateChildren,
            second: Step::System(SystemFn::FixedUpdateAngular),
        },
    ]
}

/// A placed system runs in `state`: some set configured in its schedule is
/// its set and admits `state`.
pub open spec fn gated_in(
    sets: Seq<SetPlacement>,
    p: Placement,
    state: PhysicsSimulationState,
) -> bool {
    exists|i: int|
        0 <= i < sets.len() && #[trigger] sets[i].schedule == p.schedule && sets[i].config.set
            == p.set && sets[i].config.admits(state)
}

/// `first` runs before `second` according to `order`.
pub open spec fn ordered(order: Seq<RunsBefore>, first: SystemFn, second: Step) -> bool {
    exists|i: int| 0 <= i < order.len() && #[trigger] order[i] == RunsBefore { first, second }
}

impl PhysicsPlugin {
    /// What adding this plugin to an app sets up.
    pub fn plan(&self) -> (p: PhysicsPlan)
        ensures
            p.registered@ == planned_registrations(),
            p.initial_state == initial_state(),
            p.initial_state == PhysicsSimulationState::Paused,
            p.sets@ == planned_sets(),
            p.systems@ == planned_systems(),
            p.order@ == planned_order(),
    {
        let mut registered: Vec<ReflectedType> = Vec::new();
        registered.push(ReflectedType::PhysicsMaterial);
        registered.push(ReflectedType::Mass);
        registered.push(ReflectedType::Velocity2);
        registered.push(ReflectedType::Force2);
        registered.push(ReflectedType::Position2);
        registered.push(ReflectedType::Rotation2);
        registered.push(ReflectedType::CircleCollider);

        let mut sets: Vec<SetPlacement> = Vec::new();
        sets.push(
            SetPlacement {
                schedule: PhysicsSchedule::FixedUpdate,
                config: PhysicsSystem::fixed_update_config(),
            },
        );
        sets.push(
            SetPlacement { schedule: PhysicsSchedule::Update, config: PhysicsSystem::update_config() },
        );

        let mut systems: Vec<Placement> = Vec::new();
        systems.push(
            Placement {
                system: SystemFn::Update,
                schedule: PhysicsSchedule::Update,
                set: PhysicsSystem::UpdateTransform,
            },
        );
        systems.push(
            Placement {
                system: SystemFn::FixedUpdateChildren,
                schedule: PhysicsSchedule::FixedUpdate,
                set: PhysicsSystem::ApplyForces,
            },
        );
        systems.push(
            Placement {
                system: SystemFn::FixedUpdate,
                schedule: PhysicsSchedule::FixedUpdate,
                set: PhysicsSystem::ApplyForces,
            },
        );
        systems.push(
            Placement {
                system: SystemFn::FixedUpdateAngular,
                schedule: PhysicsSchedule::FixedUpdate,
                set: PhysicsSystem::ApplyForces,
            },
        );

        let mut order: Vec<RunsBefore> = Vec::new();
        order.push(RunsBefore { first: SystemFn::Update, second: Step::TransformPropagation });
        order.push(
            RunsBefore {
                first: SystemFn::FixedUpdateChildren,
                second: Step::System(SystemFn::FixedUpdate),
            },
        );
        order.push(
            RunsBefore {
                first: SystemFn::FixedUpdateChildren,
                second: Step::System(SystemFn::FixedUpdateAngular),
            },
        );

        let start = PhysicsSimulationState::default();
        proof {
            assert(registered@ =~= planned_registrations());
            assert(sets@ =~= planned_sets());
            assert(systems@ =~= planned_systems());
            assert(order@ =~= planned_order());
        }
        PhysicsPlan { registered, initial_state: start, sets, systems, order }
    }
}

/// Every system the plugin adds runs exactly while the simulation is
/// running; in particular none of them runs before the simulation is started.
pub proof fn lemma_plan_systems_run_only_while_running()
    ensures
        forall|j: int, state: PhysicsSimulationState|
            0 <= j < planned_systems().len() ==> (#[trigger] gated_in(
                planned_sets(),
                planned_systems()[j],
                state,
            ) <==> state == PhysicsSimulationState::Running),
        forall|j: int|
            0 <= j < planned_systems().len() ==> !gated_in(
                planned_sets(),
                #[trigger] planned_systems()[j],
                initial_state(),
            ),
{
    let sets = planned_sets();
    assert forall|j: int, state: PhysicsSimulationState|
        0 <= j < planned_systems().len() implies (#[trigger] gated_in(
        sets,
        planned_systems()[j],
        state,
    ) <==> state == PhysicsSimulationState::Running) by {
        let p = planned_systems()[j];
        if state == PhysicsSimulationState::Running {
            if j == 0 {
                assert(sets[1].schedule == p.schedule);
            } else {
                assert(sets[0].schedule == p.schedule);
            }
        }
    }
}

/// Each system's set is configured in the very schedule the system is added
/// to, and the fixed-timestep systems are exactly those applying forces.
pub proof fn lemma_plan_sets_match_schedules()
    ensures
        forall|j: int|
            #![trigger planned_systems()[j]]
            0 <= j < planned_systems().len() ==> exists|i: int|
                0 <= i < planned_sets().len() && #[trigger] planned_sets()[i].schedule
                    == planned_systems()[j].schedule && planned_sets()[i].config.set
                    == planned_systems()[j].set,
        forall|j: int|
            #![trigger planned_systems()[j]]
            0 <= j < planned_systems().len() ==> ((planned_systems()[j].schedule
                == PhysicsSchedule::FixedUpdate) <==> (planned_systems()[j].set
                == PhysicsSystem::ApplyForces)),
{
    let sets = planned_sets();
    assert forall|j: int|
        #![trigger planned_systems()[j]]
        0 <= j < planned_systems().len() implies exists|i: int|
            0 <= i < sets.len() && #[trigger] sets[i].schedule == planned_systems()[j].schedule
                && sets[i].config.set == planned_systems()[j].set by {
        if j == 0 {
            assert(sets[1].schedule == planned_systems()[j].schedule);
        } else {
            assert(sets[0].schedule == planned_systems()[j].schedule);
        }
    }
}

/// Each of the plugin's systems is added exactly once, and each type is
/// registered exactly once.
pub proof fn lemma_plan_adds_each_system_once(f: SystemFn)
    ensures
        exists|j: int|
            0 <= j < planned_systems().len() && (#[trigger] planned_systems()[j]).system == f,
        forall|j: int, k: int|
            0 <= j < k < planned_systems().len() ==> (#[trigger] planned_systems()[j]).system
                != (#[trigger] planned_systems()[k]).system,
        forall|j: int, k: int|
            0 <= j < k < planned_registrations().len() ==> #[trigger] planned_registrations()[j]
                != #[trigger] planned_registrations()[k],
{
    let systems = planned_systems();
    match f {
        SystemFn::Update => assert(systems[0].system == f),
        SystemFn::FixedUpdateChildren => assert(systems[1].system == f),
        SystemFn::FixedUpdate => assert(systems[2].system == f),
        SystemFn::FixedUpdateAngular => assert(systems[3].system == f),
    }
}

/// Child forces reach their parents before either integrator runs, and the
/// transform is smoothed before the engine propagates it.
pub proof fn lemma_plan_order()
    ensures
        ordered(
            planned_order(),
            SystemFn::FixedUpdateChildren,
            Step::System(SystemFn::FixedUpdate),
        ),
        ordered(
            planned_order(),
            SystemFn::FixedUpdateChildren,
            Step::System(SystemFn::FixedUpdateAngular),
        ),
        ordered(planned_order(), SystemFn::Update, Step::TransformPropagation),
{
    let order = planned_order();
    assert(order[0] == RunsBefore { first: SystemFn::Update, second: Step::TransformPropagation });
    assert(order[1] == RunsBefore {
        first: SystemFn::FixedUpdateChildren,
        second: Step::System(SystemFn::FixedUpdate),
    });
    assert(order[2] == RunsBefore {
        first: SystemFn::FixedUpdateChildren,
        second: Step::System(SystemFn::FixedUpdateAngular),
    });
}

/// The order is consistent: no system is ordered before itself, no two
/// systems are ordered both ways, and systems are only ordered against
/// systems of the same schedule.
pub proof fn lemma_plan_order_consistent()
    ensures
        forall|i: int|
            0 <= i < planned_order().len() ==> (#[trigger] planned_order()[i]).second != Step::System(
                planned_order()[i].first,
            ),
        forall|i: int, k: int|
            0 <= i < planned_order().len() && 0 <= k < planned_order().len() ==> !((
            #[trigger] planned_order()[i]).second == Step::System((#[trigger] planned_order()[k]).first)
                && planned_order()[k].second == Step::System(planned_order()[i].first)),
        forall|i: int, j: int, k: int|
            0 <= i < planned_order().len() && 0 <= j < planned_systems().len() && 0 <= k
                < planned_systems().len() && (#[trigger] planned_order()[i]).first
                == (#[trigger] planned_systems()[j]).system && planned_order()[i].second
                == Step::System((#[trigger] planned_systems()[k]).system) ==> planned_systems()[j].schedule
                == planned_systems()[k].schedule,
{
}

} // verus!
