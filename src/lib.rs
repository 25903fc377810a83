//! A dynamic-library image plugin: the wire error codes, the path
//! marshalling rules, the function-table size handshake, and the provider's
//! image routines over the `image` engine.

pub mod engine;

pub mod consumer;
pub mod path;
pub mod provider;
pub mod wire;
