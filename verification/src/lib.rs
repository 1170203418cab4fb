//! Layered configuration for an RPC service.
//!
//! A configuration file fills in a *layer*: a record whose fields are all optional, together
//! with a bucket of the keys that the layer did not recognise. Merging a layer over a baseline
//! yields a *resolved* configuration in which every field has a value, and appends one warning
//! to a diagnostics log for every scope whose bucket of unrecognised keys is not empty.

pub mod table;
pub mod extras;
pub mod transactions;
pub mod config;
pub mod laws;
