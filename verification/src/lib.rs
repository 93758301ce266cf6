//! One step of an incrementally verifiable Fibonacci computation, as an
//! arithmetic circuit over the scalar field of the Pallas curve.
//!
//! The crate holds what the step decides: the witness it asks a constraint
//! system to allocate, the constraint it emits and the state it hands on.
//! Field arithmetic is done by `pasta_curves`; the constraint system itself
//! belongs to the proving engine that drives the step.

pub mod field;
pub mod r1cs;
pub mod circuit;
