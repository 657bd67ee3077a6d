//! The connection target, as TLS resolution sees it.
//!
//! URI parsing is a collaborator's job: resolution only ever reads the host
//! component of an already-parsed target URI. [`TargetUri`] therefore holds
//! exactly that component; a target whose URI has no authority (for example
//! one consisting only of a path) has no host.

use vstd::prelude::*;

verus! {

/// The host component of a parsed target URI, or `None` when the URI has no
/// host. Its abstract value is that optional host string.
pub struct TargetUri {
    host: Option<String>,
}

impl View for TargetUri {
    type V = Option<Seq<char>>;

    closed spec fn view(&self) -> Option<Seq<char>> {
        match self.host {
            Some(ref h) => Some(h@),
            None => None,
        }
    }
}

impl TargetUri {
    /// A target with the given host component, `None` for a hostless URI.
    pub fn new(host: Option<String>) -> (r: TargetUri)
        ensures
            r@ == (match host {
                Some(h) => Some(h@),
                None => None::<Seq<char>>,
            }),
    {
        TargetUri { host }
    }

    /// The host component, if the target has one.
    pub fn host(&self) -> (r: &Option<String>)
        ensures
            (*r is Some) == (self@ is Some),
            *r matches Some(h) ==> self@ == Some(h@),
    {
        &self.host
    }
}

} // verus!
