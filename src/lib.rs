//! Batch ingestion of vector records into a remote vector store: batch
//! planning, the sequential upsert engine, endpoint normalization,
//! compression policy and collection provisioning.

pub mod batching;
pub mod compression;
pub mod config;
pub mod connector;
pub mod endpoint;
pub mod errors;
pub mod provision;
pub mod upload;
