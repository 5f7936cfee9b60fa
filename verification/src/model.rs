//! The sign-in as mathematics: what each request is, what each response
//! leaves behind, and how the three calls follow one another.
//!
//! The executable functions of `login` bear the names of the functions here,
//! and each is held to its namesake.

use vstd::prelude::*;
use crate::auth::AuthView;
use crate::client::{ApiUrlView, ClientView};
use crate::cookie::{merge, render};
use crate::envelope::{decoded, refusal, LoginDataView, LoginView};
use crate::error::LoginErrorView;
use crate::http::{
    first_value, is_header_value, text_of, texts_of, values_of, HttpRequestView, HttpResponseView,
    Method,
};

verus! {

/// The request that a call sends to `url`: a POST that says that its body is
/// JSON and that carries the cookies received so far.
pub open spec fn request_to(url: Seq<char>, cookies: Seq<(Seq<char>, Seq<char>)>, body: Seq<char>) -> HttpRequestView {
    HttpRequestView {
        method: Method::Post,
        url,
        headers: seq![("Content-Type"@, "application/json"@), ("Cookie"@, render(cookies))],
        body,
    }
}

/// The request of a call, or the failure to build it: the cookies must make a
/// header value.
pub open spec fn built(url: Seq<char>, cookies: Seq<(Seq<char>, Seq<char>)>, body: Seq<char>) -> Result<HttpRequestView, LoginErrorView> {
    if is_header_value(render(cookies)) {
        Ok(request_to(url, cookies, body))
    } else {
        Err(LoginErrorView::HeaderParse)
    }
}

/// The values of the `Set-Cookie` headers of a response, in their order, as
/// texts; `None` where one of them does not read as a text.
pub open spec fn set_cookies_of(response: HttpResponseView) -> Option<Seq<Seq<char>>> {
    texts_of(values_of(response.headers, "set-cookie"@))
}

/// The value of the first `Authorization` header of a response, as a text. A
/// response without such a header cannot be decoded, and a value that does
/// not read as a text is malformed.
pub open spec fn authorization_of(response: HttpResponseView) -> Result<Seq<char>, LoginErrorView> {
    match first_value(response.headers, "authorization"@) {
        Some(value) => match text_of(value) {
            Some(text) => Ok(text),
            None => Err(LoginErrorView::HeaderParse),
        },
        None => Err(LoginErrorView::Decode),
    }
}

/// What the envelope of a response body is taken as: itself where the
/// provider accepts, the provider's refusal where it refuses.
pub open spec fn answered(body: Seq<u8>) -> Result<LoginView, LoginErrorView> {
    match decoded(body) {
        Ok(envelope) => if envelope.flag {
            Ok(envelope)
        } else {
            Err(refusal(envelope))
        },
        Err(e) => Err(e),
    }
}

/// The cookies once those of a response are taken in. The response is
/// malformed where a `Set-Cookie` value does not read as a text, which leaves
/// the cookies as they were, or sets nothing, which leaves the cookies set
/// before it.
pub open spec fn cookies_taken(response: HttpResponseView, cookies: Seq<(Seq<char>, Seq<char>)>) -> (Result<(), LoginErrorView>, Seq<(Seq<char>, Seq<char>)>) {
    match set_cookies_of(response) {
        Some(values) => {
            let (jar, all) = merge(cookies, values);
            (if all {
                Ok(())
            } else {
                Err(LoginErrorView::HeaderParse)
            }, jar)
        },
        None => (Err(LoginErrorView::HeaderParse), cookies),
    }
}

/// What a response leaves, whichever the call: the envelope that it holds,
/// and the cookies once those of the response are taken in. The body is read
/// once the cookies are taken.
pub open spec fn received(response: HttpResponseView, cookies: Seq<(Seq<char>, Seq<char>)>) -> (Result<LoginView, LoginErrorView>, Seq<(Seq<char>, Seq<char>)>) {
    let (taken, jar) = cookies_taken(response, cookies);
    (match taken {
        Ok(_) => answered(response.body),
        Err(e) => Err(e),
    }, jar)
}

/// The request of the first call: the credentials, a JSON text, go to the
/// OAuth2 endpoint.
pub open spec fn login_oauth2_request(account: Seq<char>, urls: ApiUrlView, client: ClientView) -> Result<HttpRequestView, LoginErrorView> {
    built(urls.oauth2_url, client.cookies, account)
}

/// What the response of the first call leaves: its envelope, where the
/// provider accepted the credentials, and the client with its cookies.
pub open spec fn login_oauth2(response: HttpResponseView, client: ClientView) -> (Result<LoginView, LoginErrorView>, ClientView) {
    let (answer, cookies) = received(response, client.cookies);
    (answer, ClientView { cookies, auth: client.auth })
}

/// The request of the second call: nothing but the cookies goes to the
/// callback endpoint.
pub open spec fn oauth2_callback_request(urls: ApiUrlView, client: ClientView) -> Result<HttpRequestView, LoginErrorView> {
    built(urls.oauth2_callback, client.cookies, Seq::empty())
}

/// The code that the second call gives where the provider accepted: the
/// `code` of the envelope's data.
pub open spec fn code_given(envelope: LoginView) -> Result<Seq<char>, LoginErrorView> {
    match envelope.data {
        Some(LoginDataView::Code(code)) => Ok(code),
        _ => Err(LoginErrorView::Decode),
    }
}

/// What the response of the second call leaves: the code, and the client with
/// its cookies. The envelope of the first call has no part in it.
pub open spec fn oauth2_callback(login_res: LoginView, response: HttpResponseView, client: ClientView) -> (Result<Seq<char>, LoginErrorView>, ClientView) {
    let (answer, cookies) = received(response, client.cookies);
    let code = match answer {
        Ok(envelope) => code_given(envelope),
        Err(e) => Err(e),
    };
    (code, ClientView { cookies, auth: client.auth })
}

/// The request of the third call: nothing but the cookies goes to the login
/// endpoint, with the code written behind its address as it is.
pub open spec fn login_by_code_request(code: Seq<char>, urls: ApiUrlView, client: ClientView) -> Result<HttpRequestView, LoginErrorView> {
    built(urls.login_callback + code, client.cookies, Seq::empty())
}

/// What the third call gives where the provider accepted the code: the value
/// of the `Authorization` header as the authorization and the envelope's
/// data, a string, as the session. The header is read before the data.
pub open spec fn auth_given(response: HttpResponseView, envelope: LoginView) -> Result<AuthView, LoginErrorView> {
    match authorization_of(response) {
        Ok(authorization) => match envelope.data {
            Some(LoginDataView::Text(session)) => Ok(AuthView { authorization, session }),
            _ => Err(LoginErrorView::Decode),
        },
        Err(e) => Err(e),
    }
}

/// What the response of the third call leaves: the client with its cookies,
/// signed in where the call succeeded, and with the `auth` that it had where
/// the call failed.
pub open spec fn login_by_code(response: HttpResponseView, client: ClientView) -> (Result<(), LoginErrorView>, ClientView) {
    let (answer, cookies) = received(response, client.cookies);
    let auth = match answer {
        Ok(envelope) => auth_given(response, envelope),
        Err(e) => Err(e),
    };
    match auth {
        Ok(auth) => (Ok(()), ClientView { cookies, auth }),
        Err(e) => (Err(e), ClientView { cookies, auth: client.auth }),
    }
}

/// How far a sign-in has come.
pub enum LoginStateView {
    Start,
    OAuth2Submitted(LoginView),
    CallbackExchanged,
    CodeExchanged,
    Failed(LoginErrorView),
}

/// What the transport reports of the call that was under way.
pub enum LoginEventView {
    Response(HttpResponseView),
    TransportFailure,
}

/// What the caller does next.
pub enum LoginActionView {
    Send(HttpRequestView),
    Stop,
}

/// Where a sign-in stands once the request of its next call is built, or is
/// found impossible to build.
pub open spec fn proceed(onward: LoginStateView, request: Result<HttpRequestView, LoginErrorView>) -> (LoginStateView, LoginActionView) {
    match request {
        Ok(request) => (onward, LoginActionView::Send(request)),
        Err(e) => (LoginStateView::Failed(e), LoginActionView::Stop),
    }
}

/// How a sign-in begins: with the request of the first call.
pub open spec fn login_start(account: Seq<char>, urls: ApiUrlView, client: ClientView) -> (LoginStateView, LoginActionView) {
    proceed(LoginStateView::Start, login_oauth2_request(account, urls, client))
}

/// How a sign-in goes on: the state and the action that follow `state` on
/// `event`, and what becomes of the client. A response goes through the call
/// that was under way; where that call succeeds, the request of the next one
/// is built. The first failure ends the sign-in, and an ended sign-in stays
/// as it is.
pub open spec fn login(state: LoginStateView, event: LoginEventView, urls: ApiUrlView, client: ClientView) -> (LoginStateView, LoginActionView, ClientView) {
    match (state, event) {
        (LoginStateView::CodeExchanged, _) | (LoginStateView::Failed(_), _) => (state, LoginActionView::Stop, client),
        (_, LoginEventView::TransportFailure) => (
            LoginStateView::Failed(LoginErrorView::Transport),
            LoginActionView::Stop,
            client,
        ),
        (LoginStateView::Start, LoginEventView::Response(response)) => {
            let (envelope, client) = login_oauth2(response, client);
            let (onward, action) = match envelope {
                Ok(envelope) => proceed(
                    LoginStateView::OAuth2Submitted(envelope),
                    oauth2_callback_request(urls, client),
                ),
                Err(e) => (LoginStateView::Failed(e), LoginActionView::Stop),
            };
            (onward, action, client)
        },
        (LoginStateView::OAuth2Submitted(login_res), LoginEventView::Response(response)) => {
            let (code, client) = oauth2_callback(login_res, response, client);
            let (onward, action) = match code {
                Ok(code) => proceed(LoginStateView::CallbackExchanged, login_by_code_request(code, urls, client)),
                Err(e) => (LoginStateView::Failed(e), LoginActionView::Stop),
            };
            (onward, action, client)
        },
        (LoginStateView::CallbackExchanged, LoginEventView::Response(response)) => {
            let (done, client) = login_by_code(response, client);
            match done {
                Ok(_) => (LoginStateView::CodeExchanged, LoginActionView::Stop, client),
                Err(e) => (LoginStateView::Failed(e), LoginActionView::Stop, client),
            }
        },
    }
}

} // verus!
