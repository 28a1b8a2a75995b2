//! A small to-do store: identifiers, the to-do record, a repository
//! abstraction with an in-memory implementation, and a service layer that
//! turns absence into a not-found error.
pub mod id;
pub mod models;
pub mod error;
pub mod repository;
pub mod in_memory;
pub mod service;
pub mod laws;
pub mod config;
pub mod params;
