//! Transaction execution: validation and state changes of every
//! transaction kind.
pub mod attestation;
pub mod challenge;
pub mod context;
pub mod executor;
pub mod identity;
pub mod project;
pub mod revenue;
