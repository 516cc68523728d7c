//! Failures of an ingestion run, one variant per stage.

use vstd::prelude::*;

verus! {

/// Why a run stopped. Every failure is fatal to the run.
#[derive(Debug, Clone, Copy, PartialEq, Eq, Structural)]
pub enum PipelineError {
    /// The input file could not be read.
    LoadError,
    /// The input is not well-formed or does not have the expected shape.
    ParseError,
    /// The endpoint is not a URL, or no port can be set on it.
    InvalidEndpoint,
    /// The client handle could not be built.
    ConnectionError,
    /// The existence check or the creation of the collection failed.
    ProvisioningError,
    /// The upsert of the given batch (1-based) failed.
    UpsertError { batch: usize },
    /// A batch size of zero was configured.
    ZeroBatchSize,
}

} // verus!
