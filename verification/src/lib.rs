//! Verified core of linkdrop: slug and TTL validation, configuration merging,
//! page-record bookkeeping and the decisions behind storing, serving and
//! deleting pages.

pub mod cli;
pub mod config;
pub mod error;
pub mod record;
pub mod server;
pub mod slug;
pub mod storage;
pub mod text;
pub mod ttl;
