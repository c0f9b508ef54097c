//! Scheduled polling of content sources with durable watermark deduplication,
//! fanning each newly discovered item out to the current subscribers.

pub mod config;
pub mod directory;
pub mod item;
pub mod laws;
pub mod mail;
pub mod notify;
pub mod policy;
pub mod poll;
pub mod scheduler;
pub mod sources;
pub mod store;
pub mod timestamp;
pub mod watermark;
