//! Boundary core for an end-to-end encryption SDK: validated typed
//! identifiers and names, aggregation of per-entity batch access-control
//! results, and signed/unsigned byte reinterpretation for a foreign-function
//! interface that cannot carry sum types or unsigned bytes.

pub mod bytes;
pub mod access;
pub mod group_edit;
pub mod ids;
pub mod validation;
