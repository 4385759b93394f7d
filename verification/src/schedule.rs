use vstd::prelude::*;

verus! {

/// Physics simulation state.
/// Starts paused (for title screens etc.), so be sure to set it to running when your game begins.
#[derive(Debug, Clone, Copy, PartialEq, Eq, Hash, Structural)]
pub enum PhysicsSimulationState {
    /// Physics is paused.
    Paused,
    /// Physics is running.
    Running,
}

/// The state a simulation is in before anything sets it.
pub open spec fn initial_state() -> PhysicsSimulationState {
    PhysicsSimulationState::Paused
}

impl Default for PhysicsSimulationState {
    fn default() -> (s: Self)
        ensures
            s == initial_state(),
            s == PhysicsSimulationState::Paused,
    {
        PhysicsSimulationState::Paused
    }
}

/// Set enum for the systems relating to transform propagation
#[derive(Debug, Clone, Copy, PartialEq, Eq, Hash, Structural)]
pub enum PhysicsSystem {
    /// Integrates forces into velocities and positions (fixed timestep).
    ApplyForces,
    /// Propagates simulated positions and rotations to transforms (every frame).
    UpdateTransform,
}

/// How a system set is configured: the set, and the only simulation state
/// in which the systems of that set run.
#[derive(Debug, Clone, Copy, PartialEq, Eq, Structural)]
pub struct SetConfig {
    pub set: PhysicsSystem,
    pub run_in_state: PhysicsSimulationState,
}

impl SetConfig {
    /// The systems of this set run in `state`.
    pub open spec fn admits(self, state: PhysicsSimulationState) -> bool {
        state == self.run_in_state
    }

    /// Run condition of the set: whether its systems run while the
    /// simulation is in `state`.
    pub fn runs_in(&self, state: &PhysicsSimulationState) -> (r: bool)
        ensures
            r == self.admits(*state),
            r <==> *state == self.run_in_state,
    {
        match (state, &self.run_in_state) {
            (PhysicsSimulationState::Paused, PhysicsSimulationState::Paused) => true,
            (PhysicsSimulationState::Running, PhysicsSimulationState::Running) => true,
            _ => false,
        }
    }
}

/// Configuration of the set scheduled in the fixed-timestep schedule.
pub open spec fn fixed_update_set_config() -> SetConfig {
    SetConfig { set: PhysicsSystem::ApplyForces, run_in_state: PhysicsSimulationState::Running }
}

/// Configuration of the set scheduled in the per-frame schedule.
pub open spec fn update_set_config() -> SetConfig {
    SetConfig { set: PhysicsSystem::UpdateTransform, run_in_state: PhysicsSimulationState::Running }
}

impl PhysicsSystem {
    /// The fixed-timestep configuration: forces are applied only while running.
    pub fn fixed_update_config() -> (c: SetConfig)
        ensures
            c == fixed_update_set_config(),
            c.set == PhysicsSystem::ApplyForces,
            c.run_in_state == PhysicsSimulationState::Running,
    {
        SetConfig { set: PhysicsSystem::ApplyForces, run_in_state: PhysicsSimulationState::Running }
    }

    /// The per-frame configuration: transforms follow the simulation only while running.
    pub fn update_config() -> (c: SetConfig)
        ensures
            c == update_set_config(),
            c.set == PhysicsSystem::UpdateTransform,
            c.run_in_state == PhysicsSimulationState::Running,
    {
        SetConfig {
            set: PhysicsSystem::UpdateTransform,
            run_in_state: PhysicsSimulationState::Running,
        }
    }
}

/// A simulation that nobody has started runs none of the physics sets, and a
/// running one runs both of them.
pub proof fn lemma_physics_starts_paused()
    ensures
        !fixed_update_set_config().admits(initial_state()),
        !update_set_config().admits(initial_state()),
        fixed_update_set_config().admits(PhysicsSimulationState::Running),
        update_set_config().admits(PhysicsSimulationState::Running),
{
}

/// Transform propagation runs in exactly the states in which forces are
/// applied: the two physics sets are never out of step.
pub proof fn lemma_sets_run_together(state: PhysicsSimulationState)
    ensures
        fixed_update_set_config().admits(state) == update_set_config().admits(state),
{
}

/// A set's run condition depends on its configured state alone, whatever the
/// set: it holds in exactly that state, and two sets gated on the same state
/// run in the same states.
pub proof fn lemma_gate_is_configured_state(c: SetConfig, d: SetConfig, state: PhysicsSimulationState)
    ensures
        c.admits(state) <==> state == c.run_in_state,
        c.admits(c.run_in_state),
        c.run_in_state == d.run_in_state ==> (c.admits(state) <==> d.admits(state)),
        c.run_in_state != d.run_in_state ==> !(c.admits(state) && d.admits(state)),
{
}

} // verus!
