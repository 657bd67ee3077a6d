//! Failures surfaced by TLS connector resolution.

use vstd::prelude::*;

verus! {

/// Why a TLS connector could not be produced.
///
/// Resolution fails fast and returns the failure synchronously to the
/// caller; no partial connector is ever substituted.
#[derive(Debug)]
pub enum TlsError {
    /// No usable verification hostname: the builder carries no domain
    /// override and the target has no host component. Indicates caller
    /// misconfiguration; not retryable.
    InvalidTarget,
    /// The external TLS engine rejected the assembled configuration
    /// (malformed certificate bytes, incompatible raw configuration,
    /// unsupported identity format). Produced by the engine layer that
    /// consumes a resolved connector, never by resolution itself.
    Engine(String),
}

impl TlsError {
    /// True exactly when this is the missing-hostname failure.
    pub fn is_invalid_target(&self) -> (r: bool)
        ensures
            r == (*self is InvalidTarget),
    {
        match self {
            TlsError::InvalidTarget => true,
            TlsError::Engine(_) => false,
        }
    }
}

} // verus!
