//! The resolved output of TLS configuration: a per-connection connector
//! describing the fully assembled policy a transport layer hands to the TLS
//! engine. A connector is created fresh per resolution call and never
//! mutated afterwards.

use vstd::prelude::*;
use crate::trust::Certificate;
use crate::trust::Identity;
use crate::trust::IdentityView;

verus! {

/// The trust material and validation policy of a resolved connector.
#[derive(Debug)]
pub enum TrustPolicy {
    /// Assembled from the builder's individual options: the CA certificate
    /// to trust (if any), the client identity to present (if any), and
    /// whether the server's certificate chain is validated.
    Assembled { ca: Option<Certificate>, identity: Option<Identity>, certs_validation: bool },
    /// A raw engine configuration, used verbatim for every handshake
    /// parameter.
    Raw(tokio_rustls::rustls::ClientConfig),
}

/// The abstract value of a [`TrustPolicy`].
pub enum TrustPolicyView {
    Assembled { ca: Option<Seq<u8>>, identity: Option<IdentityView>, certs_validation: bool },
    Raw(tokio_rustls::rustls::ClientConfig),
}

/// The abstract value of a [`TlsConnector`]: the effective verification
/// domain together with the effective trust policy.
pub struct ConnectorView {
    pub domain: Seq<char>,
    pub trust: TrustPolicyView,
}

/// A ready-to-use TLS connector for one connection attempt: the resolved
/// verification domain plus the trust policy the engine is to apply.
#[derive(Debug)]
pub struct TlsConnector {
    domain: String,
    trust: TrustPolicy,
}

impl View for TrustPolicy {
    type V = TrustPolicyView;

    closed spec fn view(&self) -> TrustPolicyView {
        match self {
            TrustPolicy::Assembled { ca, identity, certs_validation } => TrustPolicyView::Assembled {
                ca: match ca {
                    Some(c) => Some(c@),
                    None => None,
                },
                identity: match identity {
                    Some(i) => Some(i@),
                    None => None,
                },
                certs_validation: *certs_validation,
            },
            TrustPolicy::Raw(c) => TrustPolicyView::Raw(*c),
        }
    }
}

impl View for TlsConnector {
    type V = ConnectorView;

    closed spec fn view(&self) -> ConnectorView {
        ConnectorView { domain: self.domain@, trust: self.trust@ }
    }
}

impl TlsConnector {
    /// A connector whose policy is assembled from individual options.
    pub fn assembled(
        ca: Option<Certificate>,
        identity: Option<Identity>,
        certs_validation: bool,
        domain: String,
    ) -> (r: TlsConnector)
        ensures
            r@.domain == domain@,
            r@.trust == (TrustPolicyView::Assembled {
                ca: match ca {
                    Some(c) => Some(c@),
                    None => None,
                },
                identity: match identity {
                    Some(i) => Some(i@),
                    None => None,
                },
                certs_validation: certs_validation,
            }),
    {
        TlsConnector { domain, trust: TrustPolicy::Assembled { ca, identity, certs_validation } }
    }

    /// A connector that uses a raw engine configuration verbatim, with the
    /// resolved domain layered on top.
    pub fn raw(config: tokio_rustls::rustls::ClientConfig, domain: String) -> (r: TlsConnector)
        ensures
            r@.domain == domain@,
            r@.trust == TrustPolicyView::Raw(config),
    {
        TlsConnector { domain, trust: TrustPolicy::Raw(config) }
    }

    /// The hostname checked against the server's certificate.
    pub fn domain(&self) -> (r: &String)
        ensures
            r@ == self@.domain,
    {
        &self.domain
    }

    /// True exactly when the policy is a raw engine configuration.
    pub fn uses_raw_config(&self) -> (r: bool)
        ensures
            r == (self@.trust is Raw),
    {
        match &self.trust {
            TrustPolicy::Assembled { .. } => false,
            TrustPolicy::Raw(_) => true,
        }
    }

    /// The raw engine configuration, when the policy is raw.
    pub fn raw_config(&self) -> (r: Option<&tokio_rustls::rustls::ClientConfig>)
        ensures
            (r is Some) == (self@.trust is Raw),
            r matches Some(c) ==> self@.trust == TrustPolicyView::Raw(*c),
    {
        match &self.trust {
            TrustPolicy::Assembled { .. } => None,
            TrustPolicy::Raw(c) => Some(c),
        }
    }

    /// The CA certificate attached to an assembled policy, if any; `None`
    /// for a raw policy, whose trust roots live inside the configuration.
    pub fn ca_certificate(&self) -> (r: Option<&Certificate>)
        ensures
            (match self@.trust {
                TrustPolicyView::Assembled { ca, .. } => (r is Some) == (ca is Some) && (r matches
                Some(c) ==> ca == Some(c@)),
                TrustPolicyView::Raw(_) => r is None,
            }),
    {
        match &self.trust {
            TrustPolicy::Assembled { ca, .. } => ca.as_ref(),
            TrustPolicy::Raw(_) => None,
        }
    }

    /// The client identity attached to an assembled policy, if any; `None`
    /// for a raw policy.
    pub fn client_identity(&self) -> (r: Option<&Identity>)
        ensures
            (match self@.trust {
                TrustPolicyView::Assembled { identity, .. } => (r is Some) == (identity is Some)
                    && (r matches Some(i) ==> identity == Some(i@)),
                TrustPolicyView::Raw(_) => r is None,
            }),
    {
        match &self.trust {
            TrustPolicy::Assembled { identity, .. } => identity.as_ref(),
            TrustPolicy::Raw(_) => None,
        }
    }

    /// Whether an assembled policy validates the server's certificate
    /// chain; `None` for a raw policy, which owns its validation behaviour.
    pub fn certs_validation(&self) -> (r: Option<bool>)
        ensures
            (match self@.trust {
                TrustPolicyView::Assembled { certs_validation, .. } => r == Some(certs_validation),
                TrustPolicyView::Raw(_) => r is None,
            }),
    {
        match &self.trust {
            TrustPolicy::Assembled { certs_validation, .. } => Some(*certs_validation),
            TrustPolicy::Raw(_) => None,
        }
    }
}

} // verus!
