//! Client-side TLS configuration for an RPC channel.
//!
//! A [`ClientTlsConfig`] accumulates optional TLS policy inputs (verification
//! domain, CA certificate, client identity, a raw engine configuration, and
//! the certificate-validation flag) as an immutable value: every mutator
//! returns a new builder. Given a finalized builder and a target,
//! [`ClientTlsConfig::tls_connector`] resolves the effective verification
//! domain and trust policy and returns a [`TlsConnector`] describing the
//! fully assembled per-connection TLS policy, or fails with [`TlsError`].

pub mod config;
pub mod connector;
pub mod engine;
pub mod error;
pub mod laws;
pub mod target;
pub mod trust;

pub use config::ClientTlsConfig;
pub use connector::TlsConnector;
pub use error::TlsError;
pub use target::TargetUri;
pub use trust::Certificate;
pub use trust::Identity;
