//! Setting up and running blockchain event indexers.
//!
//! The heart of the crate is [`envio_utils`]: it drives the interactive project wizard
//! through its prompts, unattended, from a list of contracts and their deployments. The
//! other modules describe what to index ([`indexer_utils`], [`types`], [`network`]),
//! generate project files ([`generator`]), describe deployments to a cluster
//! ([`kubernetes`]) and keep the books of running indexers ([`service_context`],
//! [`log_filter`]).
//!
//! The crate computes and decides; it does no input or output of its own.

pub mod decimal;
pub mod envio_utils;
pub mod generator;
pub mod indexer_utils;
pub mod kubernetes;
pub mod log_filter;
pub mod network;
pub mod service_context;
pub mod test_utils;
pub mod text;
pub mod types;
