//! Lifecycle engine of an evanescent short-link service: identifiers,
//! destruction policies, and the read and write protocols between a cache
//! and a durable store.

pub mod erasure;
pub mod error;
pub mod exchange;
pub mod ident;
pub mod model;
pub mod models;
pub mod policy;
pub mod race;
pub mod redirect;
pub mod shorten;
pub mod visual;
