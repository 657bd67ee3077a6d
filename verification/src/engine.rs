//! Trusted declarations for the external TLS engine's configuration type.
//!
//! The engine (rustls, driven through `tokio_rustls`) owns the schema of its
//! low-level `ClientConfig`; this crate only carries such a value through
//! from the builder's raw-configuration escape hatch into the resolved
//! connector, without ever inspecting it.

use vstd::prelude::*;

verus! {

/// Declares `tokio_rustls::rustls::ClientConfig` to the verifier as an
/// opaque type, so that it can stand in fields and signatures. Its
/// construction and meaning belong entirely to the TLS engine.
#[verifier::external_type_specification]
#[verifier::external_body]
pub struct ExClientConfig(tokio_rustls::rustls::ClientConfig);

/// Relies on `Clone` for `tokio_rustls::rustls::ClientConfig`, which the
/// engine derives field by field: the duplicate is the same configuration
/// value.
pub assume_specification[ <tokio_rustls::rustls::ClientConfig as Clone>::clone ](
    c: &tokio_rustls::rustls::ClientConfig,
) -> (r: tokio_rustls::rustls::ClientConfig)
    ensures
        r == *c,
;

} // verus!
