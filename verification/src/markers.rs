use vstd::prelude::*;

verus! {

/// Plugin for basic 2d physics.
#[derive(Debug, Default, Clone, Copy, PartialEq, Eq, Structural)]
pub struct PhysicsPlugin;

/// Tags entity as unable to move.
#[derive(Debug, Default, Clone, Copy, PartialEq, Eq, Structural)]
pub struct Static;

} // verus!
