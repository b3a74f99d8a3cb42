//! The verified core of a small federated GraphQL service.
//!
//! The service exposes one entity type that is resolved by identifier, serves
//! an interactive query page, and boots an HTTP listener.  This crate holds
//! what the service decides and computes; the binary around it performs the
//! input and output.

pub mod address;
pub mod bootstrap;
pub mod config;
pub mod ide;
pub mod schema;
