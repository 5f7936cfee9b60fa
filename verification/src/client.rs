//! The client that a sign-in works on.

use vstd::prelude::*;
use crate::auth::{Auth, AuthView};
use crate::cookie::CookieJar;

verus! {

/// Where the provider is reached.
#[derive(Debug, PartialEq, Eq)]
pub struct ApiUrl {
    /// The endpoint that takes the credentials.
    pub oauth2_url: String,
    /// The endpoint that hands out the code.
    pub oauth2_callback: String,
    /// The endpoint that takes the code; the code is written behind it as it is.
    pub login_callback: String,
}

pub struct ApiUrlView {
    pub oauth2_url: Seq<char>,
    pub oauth2_callback: Seq<char>,
    pub login_callback: Seq<char>,
}

impl View for ApiUrl {
    type V = ApiUrlView;

    open spec fn view(&self) -> ApiUrlView {
        ApiUrlView {
            oauth2_url: self.oauth2_url@,
            oauth2_callback: self.oauth2_callback@,
            login_callback: self.login_callback@,
        }
    }
}

/// What a client keeps between calls: the cookies that the provider has set,
/// and what the last completed sign-in gave.
#[derive(Debug)]
pub struct Client {
    pub cookies: CookieJar,
    pub auth: Auth,
}

pub struct ClientView {
    pub cookies: Seq<(Seq<char>, Seq<char>)>,
    pub auth: AuthView,
}

impl View for Client {
    type V = ClientView;

    open spec fn view(&self) -> ClientView {
        ClientView { cookies: self.cookies@, auth: self.auth@ }
    }
}

impl Client {
    /// A client that has not signed in and holds no cookie.
    pub fn new() -> (client: Client)
        ensures
            client@ == (ClientView { cookies: Seq::empty(), auth: AuthView::empty() }),
    {
        Client { cookies: CookieJar::new(), auth: Auth::new() }
    }
}

} // verus!
