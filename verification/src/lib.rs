//! A minimal networked key-value store: a typed dictionary shared between
//! concurrent connection handlers, and the line-level request protocol that
//! drives it.
//!
//! The library holds everything that can be stated and proved: the store and
//! its map model, the request parser, and the response formatter. The network
//! edge (binding, accepting, reading and writing sockets) lives outside.

pub mod http;
pub mod json;
pub mod laws;
pub mod parse;
pub mod render;
pub mod shared;
pub mod store;

