//! The update that carries the login link of a QR-code authorisation.
use vstd::prelude::*;

verus! {

/// An `updateAuthorizationState` with the login link.
#[derive(Debug)]
pub struct UpdateAuthorizationState {
    authorization_state: AuthorizationState,
}

/// The authorisation state's login link.
#[derive(Debug)]
pub struct AuthorizationState {
    link: String,
}

impl UpdateAuthorizationState {
    pub closed spec fn spec_link(&self) -> Seq<char> {
        self.authorization_state.link@
    }

    /// The update with the given login link.
    pub fn new(link: String) -> (r: UpdateAuthorizationState)
        ensures
            r.spec_link() == link@,
    {
        UpdateAuthorizationState { authorization_state: AuthorizationState { link } }
    }

    /// The login link, which the QR code encodes.
    pub fn link(&self) -> (r: &str)
        ensures
            r@ == self.spec_link(),
    {
        self.authorization_state.link.as_str()
    }
}

} // verus!
