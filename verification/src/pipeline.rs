//! The stages of a pipeline vertex.

pub mod forwarder;
