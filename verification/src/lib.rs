//! Clipboard monitoring and retention engine: classification of clipboard
//! payloads, per-channel change detection, the history store with its
//! retention rule, and the decisions of one monitor cycle.

pub mod bytes;
pub mod classify;
pub mod content;
pub mod laws;
pub mod monitor;
pub mod outside;
pub mod store;
