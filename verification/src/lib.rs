//! Error codes at the boundary between the host kernel and Rust code.
//!
//! The host reports failure as a negative `int` or as a pointer taken from a
//! reserved range. This crate gives those codes a type, [`error::Error`],
//! converts the failures of `core` and `alloc` into it, and turns a
//! [`error::Result`] back into the integer that the host expects.

pub mod bindings;
pub mod c_types;
pub mod error;
pub mod narrow;
