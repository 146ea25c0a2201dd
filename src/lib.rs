//! Deterministic provisioning and seeding of a supply-chain schema.
//!
//! The library decides *what* is created and in which order: the table
//! catalog and its dependency order, the round-robin wiring of foreign keys,
//! the sparse relation rows, and the user accounts with their ownership rule.
//! Talking to the database is left to the caller.
pub mod catalog;
pub mod error;
pub mod identity;
pub mod relation;
pub mod round_robin;
pub mod schema;
pub mod seed;
