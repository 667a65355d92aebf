//! A three-component vector whose arithmetic is carried out componentwise
//! by the operations of its component type.

pub mod laws;
pub mod vector;

pub use vector::{add_test, Vector3D};
