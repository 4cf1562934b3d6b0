//! Describing what to index: events, contracts and the indexer's configuration.

pub mod config;
pub mod event;
pub mod parser;

pub use config::{ContractConfig, IndexerConfig, IndexerConfigBuilder};
pub use event::ContractEvent;
