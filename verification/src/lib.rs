//! A scripting-visible control surface for a global audio mix transform.
//!
//! The engine keeps one process-wide sound transform: five stereo pan / volume
//! coefficients in a fixed-point encoding where 100 stands for 1.0. Scripts
//! see the same record as an object with five numeric fields, one coefficient
//! each. This crate holds the bidirectional conversion between the two
//! representations, the execution context that owns the global record, the
//! accessor pair that scripts reach through the class-level `soundTransform`
//! property, and the class descriptor that registers it.

pub mod context;
pub mod mixer;
pub mod transform;
pub mod value;
