//! Geometric and light-transport core of an offline Monte Carlo ray tracer.
//!
//! The crate answers two questions for an external integrator: where does a
//! ray hit a triangle mesh (through a two-tier bounding scheme: a coarse
//! whole-mesh box test and a per-triangle broad phase), and how does the
//! surface redirect and attenuate light at that point (through the material
//! capability traits and their importance-weight arithmetic).
//!
//! All scalars are exact fixed-point numbers ([`fixed::Fx`]), so every
//! geometric and sampling routine is a deterministic function of its inputs;
//! randomness enters only through explicit seed parameters.

pub mod fixed;
pub mod vec3;
pub mod incident;
pub mod triangle;
pub mod trimesh;
pub mod bound;
pub mod materials;
pub mod object;
