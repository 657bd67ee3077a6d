//! Trust material handed to the TLS engine: CA certificates and client
//! identities. Both are opaque, externally produced artifacts; this crate
//! never inspects their contents, it only forwards them. A value is modelled
//! by the PEM bytes it carries.

use vstd::prelude::*;

verus! {

/// A certificate, as PEM-encoded bytes.
///
/// Used as a CA certificate against which a server's chain is validated.
/// The bytes are assumed to be produced by an external decoder; this crate
/// treats them as an opaque blob.
#[derive(Debug)]
pub struct Certificate {
    pem: Vec<u8>,
}

/// The abstract value of an [`Identity`]: the PEM bytes of its certificate
/// and of its private key.
pub struct IdentityView {
    pub cert: Seq<u8>,
    pub key: Seq<u8>,
}

/// A client certificate/key pair presented to the server for mutual TLS.
#[derive(Debug)]
pub struct Identity {
    cert: Vec<u8>,
    key: Vec<u8>,
}

impl View for Certificate {
    type V = Seq<u8>;

    closed spec fn view(&self) -> Seq<u8> {
        self.pem@
    }
}

impl View for Identity {
    type V = IdentityView;

    closed spec fn view(&self) -> IdentityView {
        IdentityView { cert: self.cert@, key: self.key@ }
    }
}

/// Copies a byte vector; the copy holds exactly the same bytes.
fn clone_bytes(v: &Vec<u8>) -> (r: Vec<u8>)
    ensures
        r@ == v@,
{
    let r = v.clone();
    proof {
        assert(forall|i: int| 0 <= i < v@.len() ==> r@[i] == v@[i]);
        assert(r@ =~= v@);
    }
    r
}

impl Certificate {
    /// Wraps PEM-encoded certificate bytes.
    pub fn from_pem(pem: Vec<u8>) -> (r: Certificate)
        ensures
            r@ == pem@,
    {
        Certificate { pem }
    }

    /// The PEM bytes this certificate carries.
    pub fn as_pem(&self) -> (r: &Vec<u8>)
        ensures
            r@ == self@,
    {
        &self.pem
    }
}

impl Clone for Certificate {
    fn clone(&self) -> (r: Self)
        ensures
            r@ == self@,
    {
        Certificate { pem: clone_bytes(&self.pem) }
    }
}

impl Identity {
    /// Wraps a PEM-encoded certificate and private key pair.
    pub fn from_pem(cert: Vec<u8>, key: Vec<u8>) -> (r: Identity)
        ensures
            r@.cert == cert@,
            r@.key == key@,
    {
        Identity { cert, key }
    }

    /// The PEM bytes of the certificate half of this identity.
    pub fn cert_pem(&self) -> (r: &Vec<u8>)
        ensures
            r@ == self@.cert,
    {
        &self.cert
    }

    /// The PEM bytes of the private-key half of this identity.
    pub fn key_pem(&self) -> (r: &Vec<u8>)
        ensures
            r@ == self@.key,
    {
        &self.key
    }
}

impl Clone for Identity {
    fn clone(&self) -> (r: Self)
        ensures
            r@ == self@,
    {
        Identity { cert: clone_bytes(&self.cert), key: clone_bytes(&self.key) }
    }
}

} // verus!
