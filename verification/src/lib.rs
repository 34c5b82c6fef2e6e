//! Core of a 2D particle-constraint engine: the uniform-grid spatial index
//! used to find candidate-neighbor particles, and the scene bookkeeping.
//! The floating-point constraint arithmetic itself lives with the host
//! program; everything here is verified.

pub mod layout;
pub mod scene;
pub mod spatial_hash;
