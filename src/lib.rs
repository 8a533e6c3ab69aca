//! Admission of administrative background jobs into a persistent work queue.
//!
//! The library holds the closed catalog of job kinds, the validation of each
//! kind's parameters against the crate registry, the single-flight guard of
//! the guarded kinds, and the orchestration of one submission over models of
//! the registry and the queue. The registry model also files published
//! crates under the categories it knows. Last, the library holds the decisions
//! of an owner change on a crate.

pub mod catalog;
pub mod job;
pub mod laws;
pub mod owners;
pub mod store;
pub mod submit;
