use client_tls::Certificate;
use client_tls::ClientTlsConfig;
use client_tls::Identity;
use client_tls::TargetUri;

#[test]
fn certificate_keeps_pem_bytes() {
    let cert = Certificate::from_pem(vec![1u8, 2, 3, 4]);
    assert_eq!(cert.as_pem(), &vec![1u8, 2, 3, 4]);
}

#[test]
fn identity_keeps_both_halves() {
    let id = Identity::from_pem(vec![10u8, 11], vec![12u8, 13, 14]);
    assert_eq!(id.cert_pem(), &vec![10u8, 11]);
    assert_eq!(id.key_pem(), &vec![12u8, 13, 14]);
}

#[test]
fn target_exposes_its_host() {
    let with_host = TargetUri::new(Some("h.example".to_string()));
    assert_eq!(with_host.host().as_deref(), Some("h.example"));
    let hostless = TargetUri::new(None);
    assert!(hostless.host().is_none());
}

#[test]
fn fresh_builder_enforces_validation() {
    let cfg = ClientTlsConfig::new();
    let target = TargetUri::new(Some("svc.example".to_string()));
    let conn = cfg.tls_connector(&target).unwrap();
    assert_eq!(conn.certs_validation(), Some(true));
    assert!(conn.ca_certificate().is_none());
    assert!(conn.client_identity().is_none());
    assert!(!conn.uses_raw_config());
}

#[test]
fn danger_method_leaves_validation_enforced() {
    let cfg = ClientTlsConfig::new().danger_accept_invalid_certs();
    let target = TargetUri::new(Some("svc.example".to_string()));
    let conn = cfg.tls_connector(&target).unwrap();
    assert_eq!(conn.certs_validation(), Some(true));
}

#[test]
fn ca_certificate_reaches_connector() {
    let cfg = ClientTlsConfig::new().ca_certificate(Certificate::from_pem(vec![7u8, 8, 9]));
    let target = TargetUri::new(Some("svc.example".to_string()));
    let conn = cfg.tls_connector(&target).unwrap();
    assert_eq!(conn.ca_certificate().unwrap().as_pem(), &vec![7u8, 8, 9]);
    assert!(conn.client_identity().is_none());
    assert_eq!(conn.certs_validation(), Some(true));
}

#[test]
fn identity_reaches_connector() {
    let cfg = ClientTlsConfig::new().identity(Identity::from_pem(vec![1u8], vec![2u8, 3]));
    let target = TargetUri::new(Some("svc.example".to_string()));
    let conn = cfg.tls_connector(&target).unwrap();
    let id = conn.client_identity().unwrap();
    assert_eq!(id.cert_pem(), &vec![1u8]);
    assert_eq!(id.key_pem(), &vec![2u8, 3]);
    assert!(conn.ca_certificate().is_none());
}

#[test]
fn builders_branch_without_sharing() {
    let base = ClientTlsConfig::new().ca_certificate(Certificate::from_pem(vec![42u8]));
    let branched = base.clone().domain_name("pinned.example".to_string());
    let target = TargetUri::new(Some("from-target.example".to_string()));

    let conn_base = base.tls_connector(&target).unwrap();
    let conn_branched = branched.tls_connector(&target).unwrap();

    assert_eq!(conn_base.domain(), "from-target.example");
    assert_eq!(conn_branched.domain(), "pinned.example");
    assert_eq!(conn_base.ca_certificate().unwrap().as_pem(), &vec![42u8]);
    assert_eq!(conn_branched.ca_certificate().unwrap().as_pem(), &vec![42u8]);
}

#[test]
fn later_option_wins_over_earlier_one() {
    let cfg = ClientTlsConfig::new()
        .domain_name("first.example".to_string())
        .domain_name("second.example".to_string());
    let target = TargetUri::new(None);
    let conn = cfg.tls_connector(&target).unwrap();
    assert_eq!(conn.domain(), "second.example");
}
