//! The three calls of a sign-in, and the sequence that they make.
//!
//! Each call has two halves here: one builds the request, the other takes the
//! response. Between the two the caller sends the request and receives the
//! response. `login_start` and `login` put the calls in sequence: they say
//! what to send next and when the sign-in has ended.

use vstd::prelude::*;
use vstd::string::*;
use crate::auth::Auth;
use crate::client::{ApiUrl, Client};
use crate::cookie::{merge, CookieJar};
use crate::envelope::{Login, LoginData};
use crate::error::{outcome, LoginError};
use crate::http::{header_value_taken, texts, visible_text, Header, HttpRequest, HttpResponse, Method};
use crate::model;
use crate::model::{LoginActionView, LoginEventView, LoginStateView};

verus! {

/// Builds the request of a call, with the cookies of the client.
fn build(url: String, body: String, api_client: &Client) -> (request: Result<HttpRequest, LoginError>)
    ensures
        outcome(request) == model::built(url@, api_client.cookies@, body@),
{
    let cookie = api_client.cookies.to_string();
    if !header_value_taken(cookie.as_str()) {
        return Err(LoginError::HeaderParse);
    }
    let mut headers: Vec<Header> = Vec::new();
    headers.push(Header { name: "Content-Type".to_owned(), value: "application/json".to_owned() });
    headers.push(Header { name: "Cookie".to_owned(), value: cookie });
    let request = HttpRequest { method: Method::Post, url, headers, body };
    assert(request@.headers =~= model::request_to(url@, api_client.cookies@, body@).headers);
    Ok(request)
}

/// Takes the cookies of a response into the jar, one `Set-Cookie` value
/// after the other.
pub fn take_cookies(response: &HttpResponse, cookies: &mut CookieJar) -> (taken: Result<(), LoginError>)
    ensures
        (outcome(taken), final(cookies)@) == model::cookies_taken(response@, old(cookies)@),
{
    let values = match response.header_texts("set-cookie") {
        Some(values) => values,
        None => {
            return Err(LoginError::HeaderParse);
        },
    };
    let mut at: usize = 0;
    assert(texts(values@).skip(0) =~= texts(values@));
    while at < values.len()
        invariant
            at <= values@.len(),
            model::set_cookies_of(response@) == Some(texts(values@)),
            merge(cookies@, texts(values@).skip(at as int)) == merge(old(cookies)@, texts(values@)),
        decreases values@.len() - at,
    {
        let ghost rest = texts(values@).skip(at as int);
        assert(rest.drop_first() =~= texts(values@).skip(at + 1));
        match cookies.add_cookie(values[at].as_str()) {
            Ok(()) => {},
            Err(e) => {
                return Err(e);
            },
        }
        at = at + 1;
    }
    Ok(())
}

/// The code that the second call gives, read off the envelope in which the
/// provider accepted.
pub fn code_given(envelope: Login) -> (code: Result<String, LoginError>)
    ensures
        outcome(code) == model::code_given(envelope@),
{
    match envelope.data {
        Some(LoginData::Code(code)) => Ok(code),
        _ => Err(LoginError::Decode),
    }
}

/// What the third call gives, read off the response and the envelope in
/// which the provider accepted.
pub fn auth_given(response: &HttpResponse, envelope: Login) -> (auth: Result<Auth, LoginError>)
    ensures
        outcome(auth) == model::auth_given(response@, envelope@),
{
    let authorization = match response.first_header("authorization") {
        Some(value) => match visible_text(value.as_slice()) {
            Some(text) => text,
            None => {
                return Err(LoginError::HeaderParse);
            },
        },
        None => {
            return Err(LoginError::Decode);
        },
    };
    match envelope.data {
        Some(LoginData::Text(session)) => Ok(Auth { authorization, session }),
        _ => Err(LoginError::Decode),
    }
}

/// Takes the response of a call, whichever: its cookies, then its envelope.
fn receive(response: &HttpResponse, api_client: &mut Client) -> (answer: Result<Login, LoginError>)
    ensures
        final(api_client).auth == old(api_client).auth,
        (outcome(answer), final(api_client).cookies@) == model::received(response@, old(api_client).cookies@),
{
    take_cookies(response, &mut api_client.cookies)?;
    Login::decode(response.body.as_slice())?.accepted()
}

/// The request of the first call: the credentials, as the JSON text
/// `account`, go to the provider's OAuth2 endpoint.
pub fn login_oauth2_request(account: &str, urls: &ApiUrl, api_client: &Client) -> (request: Result<HttpRequest, LoginError>)
    ensures
        outcome(request) == model::login_oauth2_request(account@, urls@, api_client@),
{
    build(urls.oauth2_url.clone(), account.to_owned(), api_client)
}

/// Takes the response of the first call: its cookies go to the client, and
/// its envelope comes back where the provider accepted the credentials.
pub fn login_oauth2(response: &HttpResponse, api_client: &mut Client) -> (envelope: Result<Login, LoginError>)
    ensures
        (outcome(envelope), final(api_client)@) == model::login_oauth2(response@, old(api_client)@),
{
    receive(response, api_client)
}

/// The request of the second call: nothing but the cookies goes to the
/// callback endpoint.
pub fn oauth2_callback_request(urls: &ApiUrl, api_client: &Client) -> (request: Result<HttpRequest, LoginError>)
    ensures
        outcome(request) == model::oauth2_callback_request(urls@, api_client@),
{
    build(urls.oauth2_callback.clone(), String::new(), api_client)
}

/// Takes the response of the second call: its cookies go to the client, and
/// the code of its envelope comes back. `login_res` is the envelope of the
/// first call; nothing is read from it.
pub fn oauth2_callback(login_res: Login, response: &HttpResponse, api_client: &mut Client) -> (code: Result<String, LoginError>)
    ensures
        (outcome(code), final(api_client)@) == model::oauth2_callback(login_res@, response@, old(api_client)@),
{
    code_given(receive(response, api_client)?)
}

/// The request of the third call: nothing but the cookies goes to the login
/// endpoint, with `code` written behind its address as it is.
pub fn login_by_code_request(code: &str, urls: &ApiUrl, api_client: &Client) -> (request: Result<HttpRequest, LoginError>)
    ensures
        outcome(request) == model::login_by_code_request(code@, urls@, api_client@),
{
    let mut url = urls.login_callback.clone();
    url.append(code);
    build(url, String::new(), api_client)
}

/// Takes the response of the third call: its cookies go to the client, and
/// where the provider accepted the code, the client is signed in with the
/// authorization of the response's header and the session of its envelope.
/// On every failure the client keeps what it had as `auth`.
pub fn login_by_code(response: &HttpResponse, api_client: &mut Client) -> (done: Result<(), LoginError>)
    ensures
        (outcome(done), final(api_client)@) == model::login_by_code(response@, old(api_client)@),
{
    let envelope = receive(response, api_client)?;
    api_client.auth = auth_given(response, envelope)?;
    Ok(())
}

/// How far a sign-in has come.
#[derive(Debug, PartialEq, Eq)]
pub enum LoginState {
    /// The first call is under way.
    Start,
    /// The provider accepted the credentials, with this envelope; the second
    /// call is under way.
    OAuth2Submitted(Login),
    /// The callback gave the code; the third call is under way.
    CallbackExchanged,
    /// The client is signed in. Nothing follows.
    CodeExchanged,
    /// The sign-in failed, for this reason. Nothing follows.
    Failed(LoginError),
}

impl View for LoginState {
    type V = LoginStateView;

    open spec fn view(&self) -> LoginStateView {
        match self {
            LoginState::Start => LoginStateView::Start,
            LoginState::OAuth2Submitted(envelope) => LoginStateView::OAuth2Submitted(envelope@),
            LoginState::CallbackExchanged => LoginStateView::CallbackExchanged,
            LoginState::CodeExchanged => LoginStateView::CodeExchanged,
            LoginState::Failed(e) => LoginStateView::Failed(e@),
        }
    }
}

/// What the transport reports of the call that was under way.
#[derive(Debug, PartialEq, Eq)]
pub enum LoginEvent {
    /// The response came.
    Response(HttpResponse),
    /// The request could not be sent, or no response came.
    TransportFailure,
}

impl View for LoginEvent {
    type V = LoginEventView;

    open spec fn view(&self) -> LoginEventView {
        match self {
            LoginEvent::Response(response) => LoginEventView::Response(response@),
            LoginEvent::TransportFailure => LoginEventView::TransportFailure,
        }
    }
}

/// What the caller does next.
#[derive(Debug, PartialEq, Eq)]
pub enum LoginAction {
    /// Send this request and report what came of it.
    Send(HttpRequest),
    /// Nothing: the sign-in has ended, as the state tells.
    Stop,
}

impl View for LoginAction {
    type V = LoginActionView;

    open spec fn view(&self) -> LoginActionView {
        match self {
            LoginAction::Send(request) => LoginActionView::Send(request@),
            LoginAction::Stop => LoginActionView::Stop,
        }
    }
}

/// Goes on to `onward` with the request of the next call, or fails without.
fn proceed(onward: LoginState, request: Result<HttpRequest, LoginError>) -> (step: (LoginState, LoginAction))
    ensures
        (step.0@, step.1@) == model::proceed(onward@, outcome(request)),
{
    match request {
        Ok(request) => (onward, LoginAction::Send(request)),
        Err(e) => (LoginState::Failed(e), LoginAction::Stop),
    }
}

/// Begins a sign-in with the credentials `account`, a JSON text: gives the
/// request of the first call to send, or fails at once.
pub fn login_start(account: &str, urls: &ApiUrl, api_client: &Client) -> (step: (LoginState, LoginAction))
    ensures
        (step.0@, step.1@) == model::login_start(account@, urls@, api_client@),
{
    proceed(LoginState::Start, login_oauth2_request(account, urls, api_client))
}

/// Takes a sign-in one call further. `event` is what came of the request
/// that was sent last; the result is the state that follows and what to do
/// next. A response goes through the call that was under way; the first
/// failure ends the sign-in, and an ended sign-in stays as it is.
pub fn login(state: LoginState, event: LoginEvent, urls: &ApiUrl, api_client: &mut Client) -> (step: (LoginState, LoginAction))
    ensures
        (step.0@, step.1@, final(api_client)@) == model::login(state@, event@, urls@, old(api_client)@),
{
    match state {
        LoginState::CodeExchanged => (LoginState::CodeExchanged, LoginAction::Stop),
        LoginState::Failed(e) => (LoginState::Failed(e), LoginAction::Stop),
        LoginState::Start => match event {
            LoginEvent::TransportFailure => (LoginState::Failed(LoginError::Transport), LoginAction::Stop),
            LoginEvent::Response(response) => match login_oauth2(&response, api_client) {
                Ok(envelope) => proceed(
                    LoginState::OAuth2Submitted(envelope),
                    oauth2_callback_request(urls, api_client),
                ),
                Err(e) => (LoginState::Failed(e), LoginAction::Stop),
            },
        },
        LoginState::OAuth2Submitted(envelope) => match event {
            LoginEvent::TransportFailure => (LoginState::Failed(LoginError::Transport), LoginAction::Stop),
            LoginEvent::Response(response) => match oauth2_callback(envelope, &response, api_client) {
                Ok(code) => proceed(
                    LoginState::CallbackExchanged,
                    login_by_code_request(code.as_str(), urls, api_client),
                ),
                Err(e) => (LoginState::Failed(e), LoginAction::Stop),
            },
        },
        LoginState::CallbackExchanged => match event {
            LoginEvent::TransportFailure => (LoginState::Failed(LoginError::Transport), LoginAction::Stop),
            LoginEvent::Response(response) => match login_by_code(&response, api_client) {
                Ok(()) => (LoginState::CodeExchanged, LoginAction::Stop),
                Err(e) => (LoginState::Failed(e), LoginAction::Stop),
            },
        },
    }
}

} // verus!
