//! A small authenticated client core for a REST service that listens only on
//! the local host, on one of two ports, each guarded by its own credential.
//! The library selects the port and credential for the configured identity,
//! builds the request address, and normalizes responses: an empty "no
//! content" success becomes an explicit variant, any other response body is
//! parsed as JSON and handed back as is.

pub mod digits;
pub mod json;
pub mod rest;
pub mod transport;
pub mod urls;
