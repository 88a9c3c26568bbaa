//! Contact-response core of a rigid-body dynamics engine, on deterministic
//! fixed-point arithmetic.
//!
//! A contact manifold handed over by collision detection is turned into a
//! solver-ready constraint, refreshed every substep from the current body
//! poses, solved by sequential impulses, and written back into the manifold.
//!
//! - [`fixed`], [`root`], [`vector`], [`geometry`]: saturating fixed-point
//!   numbers, integer square roots, vectors and rigid motions.
//! - [`body`], [`manifold`]: what the solver reads of bodies and manifolds.
//! - [`tangent`]: the friction directions of a contact.
//! - [`element`]: the impulse state of one contact point and its projection.
//! - [`builder`], [`two_body_constraint`]: the constraint between two dynamic
//!   bodies, from the manifold to the written-back impulses.
//! - [`one_body_constraint`], [`generic`], [`simd_constraint`]: the other
//!   shapes of constraint.
//! - [`dense`]: the dense vectors that the shapes in reduced coordinates
//!   read and write.
//! - [`any_constraint`]: one entry point for every shape.
//!
//! Every number is exact to the last bit on every machine: sums, products
//! and quotients round toward zero and saturate. What holds of real contact
//! dynamics only up to rounding is not claimed; what is claimed holds
//! exactly, such as the friction cone and the sign of the normal impulse.

pub mod any_constraint;
pub mod body;
pub mod builder;
pub mod dense;
pub mod element;
pub mod fixed;
pub mod generic;
pub mod geometry;
pub mod manifold;
pub mod one_body_constraint;
pub mod root;
pub mod simd_constraint;
pub mod tangent;
pub mod two_body_constraint;
pub mod vector;
