//! The physics engine's set of rigid bodies, as far as the library reads it.
//!
//! The set belongs to rapier. The library never looks inside a body; all it
//! asks is by what handle each body goes and whether it is kinematic, and it
//! asks the engine. What is stated here of the engine is believed, not
//! proved.

use vstd::prelude::*;
use rapier3d::dynamics::RigidBodySet;

verus! {

#[verifier::external_type_specification]
#[verifier::external_body]
pub struct ExRigidBodySet(rapier3d::dynamics::RigidBodySet);

/// What a walk through the set comes by: for each body the two parts of its
/// handle, the slot and the slot's generation, and whether the body is
/// kinematic.
pub uninterp spec fn walk(bodies: RigidBodySet) -> Seq<(usize, u64, bool)>;

/// Walks the set with rapier's `RigidBodySet::iter`, takes each handle apart
/// with `RigidBodyHandle::into_raw_parts` and asks each body
/// `RigidBody::is_kinematic`.
///
/// Believed of rapier: what the walk comes by, in the order of the walk, is
/// decided by the set alone. Its documentation leaves the order of a walk
/// open; its code, in the version that this crate is built with, goes
/// through the slots of the set's arena from the first to the last and skips
/// the empty ones. Nothing is claimed of the order itself, nor that no
/// handle comes twice.
#[verifier::external_body]
pub(crate) fn walk_bodies(bodies: &RigidBodySet) -> (found: Vec<(usize, u64, bool)>)
    ensures
        found@ == walk(*bodies),
{
    let mut found = Vec::new();
    for (handle, body) in bodies.iter() {
        let (index, generation) = handle.into_raw_parts();
        found.push((index, generation, body.is_kinematic()));
    }
    found
}

} // verus!
