//! Sign-in against the Natayark ID provider, without the network.
//!
//! The provider is reached in three calls: the credentials are submitted, the
//! session is exchanged for a code at the callback endpoint, and the code is
//! exchanged for the bearer authorization and the session identifier. Every
//! response may set cookies, and every request carries the cookies set so
//! far. This library builds each request and digests each response; sending
//! a request and receiving its response is left to the caller.
//!
//! - `cookie`: the jar of cookies, filled from `Set-Cookie` values and
//!   rendered into a `Cookie` header.
//! - `http`: requests and responses as plain values.
//! - `json`: JSON documents, read with `serde_json`.
//! - `envelope`: the envelope in which the provider answers.
//! - `auth`, `client`: what a client keeps.
//! - `model`: the sign-in as mathematics.
//! - `login`: the sign-in as code, held to the model.
//! - `laws`: what holds of the whole.

pub mod auth;
pub mod client;
pub mod cookie;
pub mod envelope;
pub mod error;
pub mod http;
pub mod json;
pub mod laws;
pub mod login;
pub mod model;

pub use crate::auth::Auth;
pub use crate::client::{ApiUrl, Client};
pub use crate::cookie::CookieJar;
pub use crate::envelope::{Login, LoginData};
pub use crate::error::LoginError;
pub use crate::http::{HttpRequest, HttpResponse};
pub use crate::login::{
    auth_given, code_given, login, login_by_code, login_by_code_request, login_oauth2,
    login_oauth2_request, login_start, oauth2_callback, oauth2_callback_request, take_cookies,
    LoginAction, LoginEvent, LoginState,
};
