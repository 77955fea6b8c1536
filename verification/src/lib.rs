//! A small customer CRUD core: a typed customer entity, a row-to-entity
//! mapper, an in-memory store with the persistence contract, per-operation
//! request handlers, a route dispatcher, and an error-to-status translator.

pub mod config;
pub mod customer;
pub mod errors;
pub mod handlers;
pub mod ident;
pub mod laws;
pub mod router;
pub mod store;
