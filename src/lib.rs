//! Persistence core of a multi-tenant commerce back-office.
//!
//! The storage engine itself is reached asynchronously by the caller; this
//! crate owns everything that is decided around that exchange: which statement
//! runs with which bound values, how monetary values and amounts are encoded
//! for storage, how stored rows map back to entities, how engine failures map
//! to the error taxonomy, and which schema steps still need to run.
pub mod codec;
pub mod error;
pub mod statement;
pub mod repository;
pub mod id;
pub mod entities;
pub mod schema;
