//! A streaming benchmark engine for dictionary-based compression.
//!
//! The library measures how well a periodically retrained compression
//! dictionary performs on a stream of binary records (transactions and
//! blocks), comparing each record's size after compression with the current
//! dictionary against compression with no dictionary, and assembling the
//! resulting measurements for a metrics sink.

pub mod codec;
pub mod engine;
pub mod errors;
pub mod records;
pub mod sink;
pub mod window;
pub mod wire;
