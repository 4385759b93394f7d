use bevy_newtonian2d::{
    PhysicsPlugin, PhysicsSchedule, PhysicsSimulationState, PhysicsSystem, Placement,
    ReflectedType, RunsBefore, SetConfig, SetPlacement, Step, SystemFn,
};

#[test]
fn plan_registers_reflected_types_in_order() {
    let plan = PhysicsPlugin.plan();
    assert_eq!(
        plan.registered,
        vec![
            ReflectedType::PhysicsMaterial,
            ReflectedType::Mass,
            ReflectedType::Velocity2,
            ReflectedType::Force2,
            ReflectedType::Position2,
            ReflectedType::Rotation2,
            ReflectedType::CircleCollider,
        ]
    );
}

#[test]
fn plan_starts_paused() {
    assert_eq!(PhysicsPlugin.plan().initial_state, PhysicsSimulationState::Paused);
}

#[test]
fn plan_configures_both_sets() {
    let plan = PhysicsPlugin.plan();
    assert_eq!(
        plan.sets,
        vec![
            SetPlacement {
                schedule: PhysicsSchedule::FixedUpdate,
                config: SetConfig {
                    set: PhysicsSystem::ApplyForces,
                    run_in_state: PhysicsSimulationState::Running,
                },
            },
            SetPlacement {
                schedule: PhysicsSchedule::Update,
                config: SetConfig {
                    set: PhysicsSystem::UpdateTransform,
                    run_in_state: PhysicsSimulationState::Running,
                },
            },
        ]
    );
}

#[test]
fn plan_places_each_system() {
    let plan = PhysicsPlugin.plan();
    assert_eq!(
        plan.systems,
        vec![
            Placement {
                system: SystemFn::Update,
                schedule: PhysicsSchedule::Update,
                set: PhysicsSystem::UpdateTransform,
            },
            Placement {
                system: SystemFn::FixedUpdateChildren,
                schedule: PhysicsSchedule::FixedUpdate,
                set: PhysicsSystem::ApplyForces,
            },
            Placement {
                system: SystemFn::FixedUpdate,
                schedule: PhysicsSchedule::FixedUpdate,
                set: PhysicsSystem::ApplyForces,
            },
            Placement {
                system: SystemFn::FixedUpdateAngular,
                schedule: PhysicsSchedule::FixedUpdate,
                set: PhysicsSystem::ApplyForces,
            },
        ]
    );
}

#[test]
fn plan_orders_children_before_integrators_and_update_before_propagation() {
    let plan = PhysicsPlugin.plan();
    assert_eq!(
        plan.order,
        vec![
            RunsBefore { first: SystemFn::Update, second: Step::TransformPropagation },
            RunsBefore {
                first: SystemFn::FixedUpdateChildren,
                second: Step::System(SystemFn::FixedUpdate),
            },
            RunsBefore {
                first: SystemFn::FixedUpdateChildren,
                second: Step::System(SystemFn::FixedUpdateAngular),
            },
        ]
    );
}

#[test]
fn planned_systems_run_only_while_running() {
    let plan = PhysicsPlugin.plan();
    for placement in &plan.systems {
        for state in [PhysicsSimulationState::Paused, PhysicsSimulationState::Running] {
            let gated = plan.sets.iter().any(|s| {
                s.schedule == placement.schedule
                    && s.config.set == placement.set
                    && s.config.runs_in(&state)
            });
            assert_eq!(gated, state == PhysicsSimulationState::Running);
        }
        let starts = plan.sets.iter().any(|s| {
            s.schedule == placement.schedule
                && s.config.set == placement.set
                && s.config.runs_in(&plan.initial_state)
        });
        assert!(!starts);
    }
}
