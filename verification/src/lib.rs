//! A verified core for a small user-management REST service.
//!
//! The library holds everything the service decides: request validation,
//! the error taxonomy with its HTTP mapping, the user store semantics, and
//! the service layer that ties them together. The surrounding binary only
//! does transport: it parses HTTP requests and serializes the plain values
//! this crate hands back.

pub mod dto;
pub mod errors;
pub mod handlers;
pub mod laws;
pub mod model;
pub mod numfmt;
pub mod service;
pub mod store;
pub mod timefmt;
pub mod validation;
