//! The resolution rule's guarantees, stated and proved once and for all
//! over the abstract values that the executable contracts expose.

use vstd::prelude::*;
use crate::config::TlsConfigView;
use crate::config::default_config;
use crate::config::resolve_spec;
use crate::config::resolved_domain;
use crate::connector::ConnectorView;
use crate::connector::TrustPolicyView;

verus! {

/// Domain precedence: when a builder carries a domain override `d`,
/// resolution succeeds and the resolved domain is `d` verbatim, whatever
/// host the target has (or lacks).
pub proof fn lemma_domain_precedence(cfg: TlsConfigView, host: Option<Seq<char>>, d: Seq<char>)
    requires
        cfg.domain == Some(d),
    ensures
        resolved_domain(cfg, host) == Some(d),
        resolve_spec(cfg, host) matches Some(c) && c.domain == d,
{
}

/// Domain fallback: a builder with no domain override takes the target's
/// host `h` as the verification domain.
pub proof fn lemma_domain_fallback(cfg: TlsConfigView, h: Seq<char>)
    requires
        cfg.domain is None,
    ensures
        resolved_domain(cfg, Some(h)) == Some(h),
        resolve_spec(cfg, Some(h)) matches Some(c) && c.domain == h,
{
}

/// Missing domain fails: with no domain override and no target host there
/// is nothing to verify against and resolution yields no connector. By
/// `tls_connector`'s contract the call then returns exactly
/// `TlsError::InvalidTarget`.
pub proof fn lemma_missing_domain_fails(cfg: TlsConfigView)
    requires
        cfg.domain is None,
    ensures
        resolve_spec(cfg, None) is None,
{
}

/// Raw override exclusivity: two builders with the same raw engine
/// configuration set and the same domain override resolve identically for
/// every target. Changing the CA certificate, the identity or the
/// validation flag on a builder whose raw configuration is set does not
/// change the resulting connector.
pub proof fn lemma_raw_override_exclusivity(
    a: TlsConfigView,
    b: TlsConfigView,
    host: Option<Seq<char>>,
)
    requires
        a.raw is Some,
        b.raw == a.raw,
        b.domain == a.domain,
    ensures
        resolve_spec(a, host) == resolve_spec(b, host),
{
}

/// Default validation: whenever a freshly constructed builder resolves at
/// all, the policy is assembled with certificate validation enforced and no
/// CA certificate or identity attached.
pub proof fn lemma_default_validation(host: Option<Seq<char>>)
    ensures
        resolve_spec(default_config(), host) matches Some(c) ==> c.trust == (
        TrustPolicyView::Assembled { ca: None, identity: None, certs_validation: true }),
{
}

/// Idempotent resolution: resolution is a function of the builder's and
/// the target's abstract values alone, so any two resolutions of the same
/// builder against the same target carry the same effective policy. By
/// `tls_connector`'s contract, the value of each result equals
/// `resolve_spec` of the inputs, so two calls agree.
pub proof fn lemma_resolution_idempotent(
    cfg: TlsConfigView,
    host: Option<Seq<char>>,
    r1: Option<ConnectorView>,
    r2: Option<ConnectorView>,
)
    requires
        r1 == resolve_spec(cfg, host),
        r2 == resolve_spec(cfg, host),
    ensures
        r1 == r2,
{
}

} // verus!
