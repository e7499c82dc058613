//! The decision core of a narrow phase for spheres, capsules and surfaces
//! given by a signed-distance field.
//!
//! Everything here is decided on the shape of the data: which routine
//! serves a pair of shapes and in which order, what a manifold builder
//! records, when a march through a field ends, which crossing a ray meets.
//! The arithmetic behind those decisions is in floating point and is the
//! caller's: it enters as the outcome of a comparison, as a value carried
//! through untouched, or as a function handed in.

pub mod adder;
pub mod march;
pub mod narrow_phase;
pub mod query;
pub mod ray;
pub mod segments;
pub mod shape;

pub use adder::{Contact, ManifoldAdder, Manifolds};
pub use march::{march_edge, MarchResult, TimeOfImpact};
pub use narrow_phase::{
    contact_manifolds, dispatch, sphere_contact, Dispatch, NormalRule, PairWork, Routine,
    UnsupportedPair,
};
pub use query::{overlaps, shape_intersection};
pub use segments::{choose_recipe, reproject, reprojects};
pub use shape::{ColliderShape, ShapeKind};
