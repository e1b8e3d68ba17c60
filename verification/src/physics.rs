//! The trusted boundary to the physics engine.
//!
//! The engine owns body, collider and joint storage; the vehicle holds only
//! small copyable index/generation tokens into it. The one engine call the
//! core logic makes itself is the narrow-phase contact-pair lookup, a pure
//! read without side effects; everything the library believes about it is
//! stated here.

use vstd::prelude::*;

verus! {

/// Token of a rigid body owned by the physics engine.
#[derive(Clone, Copy, PartialEq, Eq, Structural, Debug)]
pub struct BodyRef {
    /// Slot index in the engine's body storage.
    pub index: u32,
    /// Generation of the slot, telling reuses of it apart.
    pub generation: u32,
}

/// Token of a collider owned by the physics engine.
#[derive(Clone, Copy, PartialEq, Eq, Structural, Debug)]
pub struct ColliderRef {
    /// Slot index in the engine's collider storage.
    pub index: u32,
    /// Generation of the slot, telling reuses of it apart.
    pub generation: u32,
}

/// Token of a joint owned by the physics engine.
#[derive(Clone, Copy, PartialEq, Eq, Structural, Debug)]
pub struct JointRef {
    /// Slot index in the engine's joint storage.
    pub index: u32,
    /// Generation of the slot, telling reuses of it apart.
    pub generation: u32,
}

/// Declares rapier2d's `NarrowPhase`, the engine's store of contact pairs,
/// as an opaque outside type the library can hold references to.
#[verifier::external_type_specification]
#[verifier::external_body]
pub struct ExNarrowPhase(rapier2d::geometry::NarrowPhase);

/// The contact pairs of a narrow-phase state that have at least one
/// currently-active contact point, as ordered (index, generation) pairs of
/// the two colliders, in the orientation the engine stored them.
pub uninterp spec fn active_contact_pairs(np: rapier2d::geometry::NarrowPhase) -> Set<
    (u32, u32, u32, u32),
>;

/// True when the narrow phase holds an active contact between the two
/// colliders. The engine stores each pair once, undirected, so either
/// orientation may carry it.
pub open spec fn spec_pair_active(
    np: rapier2d::geometry::NarrowPhase,
    a: ColliderRef,
    b: ColliderRef,
) -> bool {
    active_contact_pairs(np).contains((a.index, a.generation, b.index, b.generation))
        || active_contact_pairs(np).contains((b.index, b.generation, a.index, a.generation))
}

/// Relies on rapier2d's `NarrowPhase::contact_pair`: a side-effect-free
/// lookup of the undirected contact pair between two colliders, `None` when
/// the pair is not tracked at all, and otherwise carrying the engine's
/// `has_any_active_contact` flag, true exactly when the pair has at least
/// one currently-active contact point.
#[verifier::external_body]
fn query_contact_pair(
    np: &rapier2d::geometry::NarrowPhase,
    a: ColliderRef,
    b: ColliderRef,
) -> (r: Option<bool>)
    ensures
        (r == Some(true)) <==> (active_contact_pairs(*np).contains(
            (a.index, a.generation, b.index, b.generation),
        ) || active_contact_pairs(*np).contains((b.index, b.generation, a.index, a.generation))),
{
    let handle_a = rapier2d::geometry::ColliderHandle::from_raw_parts(a.index, a.generation);
    let handle_b = rapier2d::geometry::ColliderHandle::from_raw_parts(b.index, b.generation);
    np.contact_pair(handle_a, handle_b).map(|pair| pair.has_any_active_contact)
}

/// Asks the narrow phase whether the two colliders are in active contact: a
/// pair that is absent, or tracked without a currently-active contact point,
/// counts as no contact.
pub fn contact_pair_active(
    np: &rapier2d::geometry::NarrowPhase,
    a: ColliderRef,
    b: ColliderRef,
) -> (r: bool)
    ensures
        r == spec_pair_active(*np, a, b),
{
    match query_contact_pair(np, a, b) {
        Some(active) => active,
        None => false,
    }
}

} // verus!
