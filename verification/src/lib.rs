//! Core of a small group-decision service for choosing movies to watch:
//! members propose a title by external catalog identifier, others may veto
//! it, and a title is marked watched once consumed. This crate holds the
//! verified core: identifier validation, the proposal store's state
//! transitions, catalog-metadata parsing, and the listing aggregation that
//! joins stored proposals with fetched metadata.

pub mod catalog;
pub mod errors;
pub mod ident;
pub mod listing;
pub mod service;
pub mod store;
pub mod text;

pub use errors::ServiceError;
