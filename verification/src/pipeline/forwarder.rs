//! Forwarders move messages from a reader to a writer.

pub mod source_forwarder;
