//! Leader election over Raft: configuration, the replicated state
//! machine, log storage, wire messages, cluster membership, health reports
//! and node identity.
pub mod types;
pub mod config;
pub mod log;
pub mod storage;
pub mod proto;
pub mod idset;
pub mod discovery;
pub mod cluster;
pub mod node;
pub mod compaction;
pub mod health;
pub mod cert_reload;
pub mod network;
