//! Verified core of a small 2D vehicle-soccer playground: how the car rig is
//! laid out, how wheel-ground contact classifies the vehicle as grounded or
//! airborne, and how player commands map to physics actions in each regime.
//! The physics engine itself is an outside collaborator, reached through a
//! narrow trusted boundary in `physics`.

pub mod car;
pub mod constants;
pub mod groups;
pub mod physics;
pub mod utils;
