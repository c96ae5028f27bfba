//! Geometric data the contact-modification hook reads and writes: the
//! read-only manifold summary of a touching pair, and the per-contact record
//! consumed by the constraint solver.
use crate::math::RawVector;
use vstd::prelude::*;

verus! {

/// Read-only geometric summary of a touching pair for the current step:
/// `local_n1` is the local-space contact normal pointing towards the exterior
/// of the pair's first collider.
#[derive(Clone, Copy, PartialEq, Eq, Structural, Debug)]
pub struct RawContactManifold {
    pub local_n1: RawVector,
}

impl RawContactManifold {
    pub fn new(local_n1: RawVector) -> (r: RawContactManifold)
        ensures
            r == (RawContactManifold { local_n1 }),
    {
        RawContactManifold { local_n1 }
    }

    /// The local-space contact normal towards the exterior of the first
    /// collider.
    pub fn local_n1(&self) -> (r: RawVector)
        ensures
            r == self.local_n1,
    {
        self.local_n1
    }
}

/// One solver contact point, persistent across steps: the data the constraint
/// solver consumes for one contact of a pair. Warm-start impulses are matched
/// by position in the pair's contact sequence across steps, so reordering the
/// sequence loses warm-start continuity. The "new this step" flag is carried
/// as a boolean.
#[derive(Clone, Copy, PartialEq, Eq, Structural, Debug)]
pub struct SolverContact {
    /// World-space contact point.
    pub point: RawVector,
    /// Separation distance: negative when the solids penetrate.
    pub dist: i64,
    /// Friction coefficient applied at this contact.
    pub friction: i64,
    /// Restitution coefficient applied at this contact.
    pub restitution: i64,
    /// Target tangential velocity (e.g. for conveyor belts).
    pub tangent_velocity: RawVector,
    /// Warm-start impulse along the contact normal.
    pub warmstart_impulse: i64,
    /// Warm-start impulse along the first tangential direction.
    pub warmstart_tangent_impulse: i64,
    /// Warm-start twist impulse around the contact normal.
    pub warmstart_twist_impulse: i64,
    /// Whether this contact first appeared during the current step.
    pub is_new: bool,
}

} // verus!
