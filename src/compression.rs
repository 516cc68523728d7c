//! Which wire compression the client gets for each requested mode.

use vstd::prelude::*;

verus! {

/// The compression modes an operator may ask for (`Disabled` is "none").
#[derive(Debug, Clone, Copy, PartialEq, Eq, Structural)]
pub enum CompressionMode {
    Disabled,
    Gzip,
    Zstd,
    Lz4,
}

/// What the transport is configured with: gzip or nothing, and whether a
/// requested mode was replaced by gzip (which the caller reports as a warning).
#[derive(Debug, Clone, Copy, PartialEq, Eq, Structural)]
pub struct CompressionPlan {
    pub gzip: bool,
    pub substituted: bool,
}

/// Only gzip is native to the transport; zstd and lz4 fall back to it.
pub open spec fn compression_plan(mode: CompressionMode) -> CompressionPlan {
    CompressionPlan {
        gzip: !(mode is Disabled),
        substituted: mode is Zstd || mode is Lz4,
    }
}

/// Chooses the transport compression for `mode`. It never fails: a mode that
/// the transport lacks is replaced by gzip and flagged.
pub fn resolve_compression(mode: CompressionMode) -> (r: CompressionPlan)
    ensures
        r == compression_plan(mode),
{
    match mode {
        CompressionMode::Disabled => CompressionPlan { gzip: false, substituted: false },
        CompressionMode::Gzip => CompressionPlan { gzip: true, substituted: false },
        CompressionMode::Zstd => CompressionPlan { gzip: true, substituted: true },
        CompressionMode::Lz4 => CompressionPlan { gzip: true, substituted: true },
    }
}

/// Asking for zstd or lz4 gives the transport exactly what asking for gzip
/// gives, together with a substitution notice.
pub proof fn lemma_substitution_is_gzip(mode: CompressionMode)
    requires
        mode is Zstd || mode is Lz4,
    ensures
        compression_plan(mode).gzip == compression_plan(CompressionMode::Gzip).gzip,
        compression_plan(mode).substituted,
        !compression_plan(CompressionMode::Gzip).substituted,
{
}

} // verus!
