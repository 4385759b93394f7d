use bevy_newtonian2d::{PhysicsPlugin, PhysicsSimulationState, PhysicsSystem, SetConfig, Static};

#[test]
fn simulation_starts_paused() {
    assert_eq!(PhysicsSimulationState::default(), PhysicsSimulationState::Paused);
}

#[test]
fn fixed_update_config_applies_forces_while_running() {
    let config = PhysicsSystem::fixed_update_config();
    assert_eq!(config.set, PhysicsSystem::ApplyForces);
    assert_eq!(config.run_in_state, PhysicsSimulationState::Running);
}

#[test]
fn update_config_updates_transforms_while_running() {
    let config = PhysicsSystem::update_config();
    assert_eq!(config.set, PhysicsSystem::UpdateTransform);
    assert_eq!(config.run_in_state, PhysicsSimulationState::Running);
}

#[test]
fn paused_simulation_runs_no_physics_set() {
    let paused = PhysicsSimulationState::default();
    assert!(!PhysicsSystem::fixed_update_config().runs_in(&paused));
    assert!(!PhysicsSystem::update_config().runs_in(&paused));
}

#[test]
fn running_simulation_runs_both_physics_sets() {
    let running = PhysicsSimulationState::Running;
    assert!(PhysicsSystem::fixed_update_config().runs_in(&running));
    assert!(PhysicsSystem::update_config().runs_in(&running));
}

#[test]
fn physics_sets_run_together_in_every_state() {
    for state in [PhysicsSimulationState::Paused, PhysicsSimulationState::Running] {
        assert_eq!(
            PhysicsSystem::fixed_update_config().runs_in(&state),
            PhysicsSystem::update_config().runs_in(&state)
        );
    }
}

#[test]
fn config_gated_on_paused_runs_only_when_paused() {
    let config = SetConfig {
        set: PhysicsSystem::ApplyForces,
        run_in_state: PhysicsSimulationState::Paused,
    };
    assert!(config.runs_in(&PhysicsSimulationState::Paused));
    assert!(!config.runs_in(&PhysicsSimulationState::Running));
}

#[test]
fn physics_sets_are_distinct() {
    assert_ne!(PhysicsSystem::ApplyForces, PhysicsSystem::UpdateTransform);
    assert_ne!(
        PhysicsSystem::fixed_update_config(),
        PhysicsSystem::update_config()
    );
}

#[test]
fn marker_types_have_defaults() {
    assert_eq!(PhysicsPlugin::default(), PhysicsPlugin);
    assert_eq!(Static::default(), Static);
}
