//! Generator core for the builder pattern: from the structural description of
//! a record type it derives a companion builder — one optional slot per named
//! field, a factory, per-field setters, and a validating finalizer — as an
//! ordered sequence of declarations for a back end to render, together with a
//! verified model of the generated builder's runtime behaviour.

pub mod decl;
pub mod model;
pub mod runtime;
pub mod synth;
