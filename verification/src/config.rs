//! The TLS configuration builder and the connector resolution rule.
//!
//! [`ClientTlsConfig`] is an immutable-update value: every mutator consumes
//! the builder and returns a new one, so a builder can be shared and
//! branched freely before finalization. [`ClientTlsConfig::tls_connector`]
//! is the resolution rule: it derives the effective verification domain and
//! trust policy for one target and returns a fresh [`TlsConnector`].

use vstd::prelude::*;
use crate::connector::ConnectorView;
use crate::connector::TlsConnector;
use crate::connector::TrustPolicyView;
use crate::error::TlsError;
use crate::target::TargetUri;
use crate::trust::Certificate;
use crate::trust::Identity;
use crate::trust::IdentityView;

verus! {

/// The abstract value of a [`ClientTlsConfig`]: its five policy inputs.
pub struct TlsConfigView {
    pub domain: Option<Seq<char>>,
    pub ca: Option<Seq<u8>>,
    pub identity: Option<IdentityView>,
    pub raw: Option<tokio_rustls::rustls::ClientConfig>,
    pub certs_validation: bool,
}

/// Configures TLS settings for client channels.
pub struct ClientTlsConfig {
    domain: Option<String>,
    cert: Option<Certificate>,
    identity: Option<Identity>,
    rustls_raw: Option<tokio_rustls::rustls::ClientConfig>,
    certs_validation: bool,
}

impl View for ClientTlsConfig {
    type V = TlsConfigView;

    closed spec fn view(&self) -> TlsConfigView {
        TlsConfigView {
            domain: match self.domain {
                Some(ref d) => Some(d@),
                None => None,
            },
            ca: match self.cert {
                Some(ref c) => Some(c@),
                None => None,
            },
            identity: match self.identity {
                Some(ref i) => Some(i@),
                None => None,
            },
            raw: self.rustls_raw,
            certs_validation: self.certs_validation,
        }
    }
}

/// The value of a freshly constructed builder: no overrides, certificate
/// validation enforced.
pub open spec fn default_config() -> TlsConfigView {
    TlsConfigView {
        domain: None,
        ca: None,
        identity: None,
        raw: None,
        certs_validation: true,
    }
}

/// The domain resolution rule: a domain override wins verbatim; otherwise
/// the target's host is used; a builder without an override and a target
/// without a host leave no domain to verify against.
pub open spec fn resolved_domain(cfg: TlsConfigView, host: Option<Seq<char>>) -> Option<
    Seq<char>,
> {
    if cfg.domain is Some {
        cfg.domain
    } else {
        host
    }
}

/// The connector produced once a domain is resolved: a raw engine
/// configuration, when present, is the sole source of trust policy (the
/// resolved domain is still layered on top); otherwise the policy is
/// assembled from the builder's CA certificate, identity and validation
/// flag.
pub open spec fn connector_of(cfg: TlsConfigView, domain: Seq<char>) -> ConnectorView {
    match cfg.raw {
        Some(c) => ConnectorView { domain, trust: TrustPolicyView::Raw(c) },
        None => ConnectorView {
            domain,
            trust: TrustPolicyView::Assembled {
                ca: cfg.ca,
                identity: cfg.identity,
                certs_validation: cfg.certs_validation,
            },
        },
    }
}

/// The whole resolution rule: the connector for the resolved domain, or
/// nothing when no domain is derivable.
pub open spec fn resolve_spec(cfg: TlsConfigView, host: Option<Seq<char>>) -> Option<
    ConnectorView,
> {
    match resolved_domain(cfg, host) {
        Some(d) => Some(connector_of(cfg, d)),
        None => None,
    }
}

impl Clone for ClientTlsConfig {
    /// The copy denotes the same configuration value as the original.
    fn clone(&self) -> (r: Self)
        ensures
            r@ == self@,
    {
        ClientTlsConfig {
            domain: match &self.domain {
                Some(d) => Some(d.clone()),
                None => None,
            },
            cert: match &self.cert {
                Some(c) => Some(c.clone()),
                None => None,
            },
            identity: match &self.identity {
                Some(i) => Some(i.clone()),
                None => None,
            },
            rustls_raw: match &self.rustls_raw {
                Some(c) => Some(c.clone()),
                None => None,
            },
            certs_validation: self.certs_validation,
        }
    }
}

impl ClientTlsConfig {
    /// Creates a new `ClientTlsConfig` with no overrides set and
    /// certificate validation enforced.
    pub fn new() -> (r: ClientTlsConfig)
        ensures
            r@ == default_config(),
    {
        ClientTlsConfig {
            domain: None,
            cert: None,
            identity: None,
            rustls_raw: None,
            certs_validation: true,
        }
    }

    /// Sets the domain name against which to verify the server's TLS
    /// certificate, in place of the host derived from the connection
    /// target. The override also applies when a raw engine configuration is
    /// used: domain resolution stays layered on top of the escape hatch.
    pub fn domain_name(self, domain: String) -> (r: ClientTlsConfig)
        ensures
            r@ == (TlsConfigView { domain: Some(domain@), ..self@ }),
    {
        ClientTlsConfig { domain: Some(domain), ..self }
    }

    /// Sets the CA certificate against which to verify the server's TLS
    /// certificate.
    ///
    /// This has no effect if `rustls_client_config` is used to configure
    /// the connector.
    pub fn ca_certificate(self, ca_certificate: Certificate) -> (r: ClientTlsConfig)
        ensures
            r@ == (TlsConfigView { ca: Some(ca_certificate@), ..self@ }),
    {
        ClientTlsConfig { cert: Some(ca_certificate), ..self }
    }

    /// Sets the client identity to present to the server.
    ///
    /// This has no effect if `rustls_client_config` is used to configure
    /// the connector.
    pub fn identity(self, identity: Identity) -> (r: ClientTlsConfig)
        ensures
            r@ == (TlsConfigView { identity: Some(identity@), ..self@ }),
    {
        ClientTlsConfig { identity: Some(identity), ..self }
    }

    /// Uses the options of the given engine configuration verbatim. This
    /// overrides every other TLS option set via other means; only domain
    /// resolution remains layered on top.
    pub fn rustls_client_config(self, config: tokio_rustls::rustls::ClientConfig) -> (r:
        ClientTlsConfig)
        ensures
            r@ == (TlsConfigView { raw: Some(config), ..self@ }),
    {
        ClientTlsConfig { rustls_raw: Some(config), ..self }
    }

    /// Meant as a last-resort escape from certificate validation.
    ///
    /// # Warning
    ///
    /// Trusting invalid certificates would trust *any* certificate for
    /// *any* site, expired ones included. As the contract states, this
    /// method leaves the validation flag enforced (`true`), identical to
    /// the default: no builder path actually disables validation.
    pub fn danger_accept_invalid_certs(self) -> (r: ClientTlsConfig)
        ensures
            r@ == (TlsConfigView { certs_validation: true, ..self@ }),
    {
        ClientTlsConfig { certs_validation: true, ..self }
    }

    /// Resolves the effective TLS policy for one connection attempt against
    /// `target` and returns a fresh connector.
    ///
    /// Returns `Ok` exactly when a verification domain is derivable (a
    /// domain override is set, or the target has a host); otherwise fails
    /// with [`TlsError::InvalidTarget`]. The builder is unchanged and can
    /// be reused for further resolutions.
    pub fn tls_connector(&self, target: &TargetUri) -> (r: Result<TlsConnector, TlsError>)
        ensures
            (match r {
                Ok(c) => resolve_spec(self@, target@) == Some(c@),
                Err(e) => resolve_spec(self@, target@) is None && e is InvalidTarget,
            }),
    {
        let domain: String = match &self.domain {
            Some(d) => d.clone(),
            None => match target.host() {
                Some(h) => h.clone(),
                None => {
                    return Err(TlsError::InvalidTarget);
                },
            },
        };
        match &self.rustls_raw {
            Some(c) => Ok(TlsConnector::raw(c.clone(), domain)),
            None => {
                let ca = match &self.cert {
                    Some(c) => Some(c.clone()),
                    None => None,
                };
                let id = match &self.identity {
                    Some(i) => Some(i.clone()),
                    None => None,
                };
                Ok(TlsConnector::assembled(ca, id, self.certs_validation, domain))
            },
        }
    }
}

} // verus!
