//! Records exchanged between processors through the key-value store.

pub mod watermark;
