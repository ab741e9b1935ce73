//! Model-layer logic of a finite-element toolkit: the structural side of its
//! physics (degrees of freedom, component layouts, material contracts) and the
//! symbolic side of its block assembly (sparsity patterns of element blocks).
//!
//! Everything here is integer and string logic, verified. The numerical
//! kernels that work on floating-point values are built on top of it outside
//! this crate.

pub mod atoms;
pub mod containers;
pub mod error;
pub mod models;
pub mod text;
