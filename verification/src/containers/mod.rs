//! The containers the model layer reads: meshes, finite-element subspaces,
//! the component lists of fields and the degree-of-freedom ordering of
//! matrix blocks.

pub mod field;
pub mod finite_element_space;
pub mod matrix;
pub mod mesh;
