//! The immutable session configuration, constructed once at startup.

use vstd::prelude::*;

verus! {

/// An opaque secret used to authenticate to the control plane. The value is
/// held in a private field and carries no formatting: it is never logged or
/// displayed. The one way out is `expose`, for the host to hand it to the
/// tunnel engine's connect operation and nothing else.
pub struct Credential {
    value: String,
}

impl View for Credential {
    type V = Seq<char>;

    closed spec fn view(&self) -> Seq<char> {
        self.value@
    }
}

impl Credential {
    /// A credential must be non-empty; emptiness is the only validation this
    /// library performs (anything further is the tunnel engine's job).
    pub open spec fn wf(&self) -> bool {
        self@.len() > 0
    }

    /// Accepts exactly the non-empty values.
    pub fn new(value: String) -> (r: Option<Credential>)
        ensures
            value@.len() > 0 ==> (r matches Some(c) && c@ == value@),
            value@.len() == 0 ==> r is None,
    {
        if value.as_str().is_empty() {
            None
        } else {
            Some(Credential { value })
        }
    }

    /// Hands the secret to the caller. Meant solely for the host's call into
    /// the tunnel engine's connect operation.
    pub fn expose(&self) -> (r: &str)
        ensures
            r@ == self@,
    {
        self.value.as_str()
    }
}

/// The session configuration: control-plane address, credential, client
/// identity and an optional log directory. Read-only for the life of the
/// process.
pub struct SessionConfiguration {
    pub control_plane: String,
    pub credential: Credential,
    pub identity: String,
    pub log_dir: Option<String>,
}

impl SessionConfiguration {
    /// Fully populated: the credential is non-empty. Validation of the
    /// control-plane address is delegated to the tunnel engine.
    pub open spec fn wf(&self) -> bool {
        self.credential.wf()
    }

    pub fn new(
        control_plane: String,
        credential: Credential,
        identity: String,
        log_dir: Option<String>,
    ) -> (r: SessionConfiguration)
        requires
            credential.wf(),
        ensures
            r.wf(),
            r.control_plane@ == control_plane@,
            r.credential == credential,
            r.identity@ == identity@,
            r.log_dir == log_dir,
    {
        SessionConfiguration { control_plane, credential, identity, log_dir }
    }
}

} // verus!
