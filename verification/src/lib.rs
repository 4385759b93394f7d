//! Simple 2D Newtonian physics simulation for Bevy: the verified core.
//!
//! This crate holds the parts of the physics plugin that do not compute on
//! floating point: the simulation state machine that gates the physics
//! systems, the system sets they run in, the plan of what the plugin sets up,
//! and the marker types.
pub mod markers;
pub mod plan;
pub mod schedule;

pub use markers::{PhysicsPlugin, Static};
pub use plan::{
    PhysicsPlan, PhysicsSchedule, Placement, ReflectedType, RunsBefore, SetPlacement, Step, SystemFn,
};
pub use schedule::{PhysicsSimulationState, PhysicsSystem, SetConfig};
