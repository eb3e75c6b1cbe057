//! Emits high-level JavaScript / TypeScript wrapper classes for the objects
//! and functions that a native library exports.

pub mod model;
pub mod names;
pub mod types;
pub mod function;
pub mod class;
pub mod node;
pub mod extensions;
pub mod laws;
