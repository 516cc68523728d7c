//! The resolved configuration of a run.

use vstd::prelude::*;
use crate::compression::CompressionMode;

verus! {

pub const DEFAULT_DIMENSIONS: u64 = 768;

pub const DEFAULT_BATCH_SIZE: usize = 100;

pub const DEFAULT_TIMEOUT_SECS: u64 = 30;

pub const DEFAULT_POOL_SIZE: usize = 3;

/// Everything a run needs to know; read-only once built.
pub struct PipelineConfig {
    pub url: String,
    pub api_key: String,
    pub input: String,
    pub collection: String,
    pub dimensions: u64,
    pub batch_size: usize,
    pub timeout_secs: u64,
    /// Connection pool size: advisory only, as batches are sent one at a time.
    pub pool_size: usize,
    pub compression: CompressionMode,
}

impl PipelineConfig {
    /// A configuration for the given endpoint, credential and input file, with
    /// the defaults for the rest: collection `documents`, 768 dimensions,
    /// batches of 100, a 30 s timeout, a pool of 3 and no compression.
    pub fn with_defaults(url: String, api_key: String, input: String) -> (r: PipelineConfig)
        ensures
            r.url == url,
            r.api_key == api_key,
            r.input == input,
            r.collection@ == "documents"@,
            r.dimensions == DEFAULT_DIMENSIONS,
            r.batch_size == DEFAULT_BATCH_SIZE,
            r.timeout_secs == DEFAULT_TIMEOUT_SECS,
            r.pool_size == DEFAULT_POOL_SIZE,
            r.compression == CompressionMode::Disabled,
    {
        PipelineConfig {
            url,
            api_key,
            input,
            collection: "documents".to_owned(),
            dimensions: DEFAULT_DIMENSIONS,
            batch_size: DEFAULT_BATCH_SIZE,
            timeout_secs: DEFAULT_TIMEOUT_SECS,
            pool_size: DEFAULT_POOL_SIZE,
            compression: CompressionMode::Disabled,
        }
    }
}

} // verus!
