//! Decisions of the collection provisioner. The caller asks the store whether
//! the collection exists and, where told to, creates it; these functions
//! decide what follows each reply.

use vstd::prelude::*;
use crate::errors::PipelineError;

verus! {

/// Similarity metric of a created collection.
#[derive(Debug, Clone, Copy, PartialEq, Eq, Structural)]
pub enum Metric {
    Cosine,
}

/// What the provisioner asks of the store after the existence check.
#[derive(Debug, Clone, Copy, PartialEq, Eq, Structural)]
pub enum ProvisionAction {
    /// The collection is there: leave it as it is.
    Keep,
    /// Create the collection with these parameters.
    Create { dimensions: u64, metric: Metric },
}

pub open spec fn spec_after_existence_check(reply: Option<bool>, dimensions: u64) -> Result<
    ProvisionAction,
    PipelineError,
> {
    match reply {
        None => Err(PipelineError::ProvisioningError),
        Some(true) => Ok(ProvisionAction::Keep),
        Some(false) => Ok(ProvisionAction::Create { dimensions, metric: Metric::Cosine }),
    }
}

/// Decides from the existence check's reply (`None` where the check failed)
/// whether to create the collection. An existing collection is never altered.
pub fn after_existence_check(reply: Option<bool>, dimensions: u64) -> (r: Result<
    ProvisionAction,
    PipelineError,
>)
    ensures
        r == spec_after_existence_check(reply, dimensions),
{
    match reply {
        None => Err(PipelineError::ProvisioningError),
        Some(true) => Ok(ProvisionAction::Keep),
        Some(false) => Ok(ProvisionAction::Create { dimensions, metric: Metric::Cosine }),
    }
}

/// Maps the outcome of the creation call.
pub fn after_creation(succeeded: bool) -> (r: Result<(), PipelineError>)
    ensures
        succeeded <==> r is Ok,
        !succeeded ==> r == Err::<(), PipelineError>(PipelineError::ProvisioningError),
{
    if succeeded {
        Ok(())
    } else {
        Err(PipelineError::ProvisioningError)
    }
}

/// Whether the collection exists once a provisioning pass that found
/// `existed` and took `action` has finished without error.
pub open spec fn exists_after(existed: bool, action: ProvisionAction) -> bool {
    existed || action is Create
}

/// Provisioning is idempotent: once one pass has succeeded, a second pass finds
/// the collection, asks for no creation and reports no error.
pub proof fn lemma_provision_idempotent(existed: bool, dimensions: u64, again: u64)
    requires
        spec_after_existence_check(Some(existed), dimensions) is Ok,
    ensures
        ({
            let first = spec_after_existence_check(Some(existed), dimensions)->Ok_0;
            spec_after_existence_check(Some(exists_after(existed, first)), again) == Ok::<
                ProvisionAction,
                PipelineError,
            >(ProvisionAction::Keep)
        }),
{
}

} // verus!
