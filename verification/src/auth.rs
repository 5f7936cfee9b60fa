//! What a completed sign-in leaves behind on the client.

use vstd::prelude::*;

verus! {

/// The bearer authorization and the session identifier of a signed-in client.
/// Both are empty until a sign-in has run to its end.
#[derive(Debug, PartialEq, Eq)]
pub struct Auth {
    pub authorization: String,
    pub session: String,
}

/// An `Auth` as a pair of texts.
pub struct AuthView {
    pub authorization: Seq<char>,
    pub session: Seq<char>,
}

impl View for Auth {
    type V = AuthView;

    open spec fn view(&self) -> AuthView {
        AuthView { authorization: self.authorization@, session: self.session@ }
    }
}

impl AuthView {
    /// The state before any sign-in: nothing is held.
    pub open spec fn empty() -> AuthView {
        AuthView { authorization: Seq::empty(), session: Seq::empty() }
    }
}

impl Auth {
    /// The state before any sign-in.
    pub fn new() -> (auth: Auth)
        ensures
            auth@ == AuthView::empty(),
    {
        Auth { authorization: String::new(), session: String::new() }
    }
}

} // verus!
