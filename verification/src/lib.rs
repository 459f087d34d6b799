//! A verified model of a named-counter service.
//!
//! The service stores named integer counters in a single table and exposes
//! four operations over them: list every counter, insert a new counter,
//! decrement an existing counter, and look a counter up by name. This crate
//! holds the verified core: the table model with its four persistence
//! operations, the routing table that maps URL paths to requests, the
//! renderer that produces the textual response bodies, the startup gate that
//! keeps the service from answering requests before every schema migration
//! has been applied, and proofs of the laws that relate the operations.
//!
//! The unverified binary around this crate does what a verifier cannot see:
//! it speaks HTTP, holds the pooled database connections, runs the schema
//! migrations, and serves the generated API documentation. It hands this
//! crate plain values and takes plain values back.

pub mod actions;
pub mod docs;
pub mod errors;
pub mod laws;
pub mod models;
pub mod render;
pub mod routes;
pub mod service;

pub use errors::DbError;
pub use errors::MigrationError;
pub use models::Counter;
pub use models::NewCounter;
