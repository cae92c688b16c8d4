//! Transformers applied to messages as they are read from a source.

pub mod filter;
