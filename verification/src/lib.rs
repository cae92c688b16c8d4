//! Verified core of a stream-processing pipeline: the message filter,
//! the runtime error reporter, the source forwarder's settlement rules
//! and the pipeline and watermark data models.

pub mod text;
pub mod runtime;
pub mod error;
pub mod decimal;
pub mod transformer;
pub mod pipeline;
pub mod models;
pub mod objects;
