//! What holds of the library as a whole.
//!
//! Each function here is a theorem: its `requires` names the case, its
//! `ensures` says what holds in it. They speak of the same mathematical
//! functions as the contracts of the executable functions do.

use vstd::prelude::*;
use crate::client::{ApiUrlView, ClientView};
use crate::cookie::{
    added_all, lemma_added_all_distinct, lemma_added_all_keeps, lemma_added_all_latest,
    lemma_added_all_untouched, lemma_lookup_entry, lemma_merge_all, lemma_render_carries, lookup,
    merge, names_distinct, occurs, parse_set_cookie, render, sets, written,
};
use crate::envelope::{decoded, LoginDataView, LoginView};
use crate::error::LoginErrorView;
use crate::http::{first_value, text_of, HttpRequestView, HttpResponseView};
use crate::model;
use crate::model::{set_cookies_of, LoginActionView, LoginEventView, LoginStateView};

verus! {

/// Whatever `Set-Cookie` values a jar is offered, one after the other, it
/// holds each name once, it holds for each name the value that was set last,
/// and that cookie stands in the header that the jar renders.
pub proof fn lemma_jar_holds_latest_once(entries: Seq<(Seq<char>, Seq<char>)>, headers: Seq<Seq<char>>, name: Seq<char>, value: Seq<char>, last: int)
    requires
        names_distinct(entries),
        0 <= last < headers.len(),
        parse_set_cookie(headers[last]) == Some((name, value)),
        forall|j: int| last < j < headers.len() ==> !sets(#[trigger] headers[j], name),
    ensures
        names_distinct(added_all(entries, headers)),
        lookup(added_all(entries, headers), name) == Some(value),
        occurs(written(name, value), render(added_all(entries, headers))),
{
    let jar = added_all(entries, headers);
    lemma_added_all_distinct(entries, headers);
    lemma_added_all_latest(entries, headers, name, value, last);
    let at = lemma_lookup_entry(jar, name);
    lemma_render_carries(jar, at);
}

/// Where the provider refuses a call, whichever of the three, the sign-in
/// fails with the provider's code, or -1 where it gave none, and with its
/// message; nothing more is sent, and the client keeps what it had as `auth`.
/// This is said of a response whose `Set-Cookie` values each set a cookie:
/// one that does not fails the call before the envelope is read.
pub proof fn lemma_refusal_fails(state: LoginStateView, response: HttpResponseView, urls: ApiUrlView, client: ClientView, envelope: LoginView)
    requires
        state is Start || state is OAuth2Submitted || state is CallbackExchanged,
        set_cookies_of(response) matches Some(values) && merge(client.cookies, values).1,
        decoded(response.body) == Ok::<LoginView, LoginErrorView>(envelope),
        !envelope.flag,
    ensures
        ({
            let (after, action, left) = model::login(state, LoginEventView::Response(response), urls, client);
            &&& after == LoginStateView::Failed(
                LoginErrorView::Provider {
                    code: match envelope.code {
                        Some(code) => code,
                        None => -1i32,
                    },
                    msg: envelope.msg,
                },
            )
            &&& action == LoginActionView::Stop
            &&& left.auth == client.auth
        }),
{
}

/// Where the third call succeeds, the client's authorization is the value of
/// the response's `Authorization` header, and its session is the string that
/// the envelope holds as `data`.
pub proof fn lemma_signed_in(response: HttpResponseView, urls: ApiUrlView, client: ClientView)
    requires
        model::login(LoginStateView::CallbackExchanged, LoginEventView::Response(response), urls, client).0 is CodeExchanged,
    ensures
        ({
            let left = model::login(LoginStateView::CallbackExchanged, LoginEventView::Response(response), urls, client).2;
            &&& first_value(response.headers, "authorization"@) matches Some(value) && text_of(value) == Some(
                left.auth.authorization,
            )
            &&& decoded(response.body) matches Ok(envelope) && envelope.flag && envelope.data == Some(
                LoginDataView::Text(left.auth.session),
            )
        }),
{
}

/// The client's `auth` changes at one place only: where the third call
/// succeeds. Every other step, and every failure, leaves it as it was.
pub proof fn lemma_auth_kept(state: LoginStateView, event: LoginEventView, urls: ApiUrlView, client: ClientView)
    ensures
        ({
            let (after, action, left) = model::login(state, event, urls, client);
            left.auth == client.auth || (state is CallbackExchanged && after is CodeExchanged)
        }),
{
}

/// The value of the `Cookie` header of a request that this library built.
pub open spec fn cookie_sent(request: HttpRequestView) -> Seq<char> {
    request.headers[1].1
}

/// A cookie that the first response sets goes out with the second request,
/// and its name goes out with the third: with the same value, unless the
/// second response set that name anew. `value` is what the first response set
/// last for `name`.
pub proof fn lemma_cookies_carried(urls: ApiUrlView, client: ClientView, first: HttpResponseView, second: HttpResponseView, name: Seq<char>, value: Seq<char>, last: int)
    requires
        names_distinct(client.cookies),
        set_cookies_of(first) matches Some(values) && {
            &&& 0 <= last < values.len()
            &&& parse_set_cookie(values[last]) == Some((name, value))
            &&& forall|j: int| last < j < values.len() ==> !sets(#[trigger] values[j], name)
        },
    ensures
        ({
            let (state2, action2, client2) = model::login(LoginStateView::Start, LoginEventView::Response(first), urls, client);
            action2 matches LoginActionView::Send(request2) ==> {
                &&& request2.headers[1].0 == "Cookie"@
                &&& cookie_sent(request2) == render(client2.cookies)
                &&& lookup(client2.cookies, name) == Some(value)
                &&& occurs(written(name, value), cookie_sent(request2))
                &&& ({
                    let (state3, action3, client3) = model::login(state2, LoginEventView::Response(second), urls, client2);
                    action3 matches LoginActionView::Send(request3) ==> {
                        &&& request3.headers[1].0 == "Cookie"@
                        &&& cookie_sent(request3) == render(client3.cookies)
                        &&& lookup(client3.cookies, name) matches Some(current) && occurs(
                            written(name, current),
                            cookie_sent(request3),
                        )
                        &&& set_cookies_of(second) matches Some(later) && ((forall|j: int|
                            0 <= j < later.len() ==> !sets(#[trigger] later[j], name)) ==> lookup(
                            client3.cookies,
                            name,
                        ) == Some(value))
                    }
                })
            }
        }),
{
    let (state2, action2, client2) = model::login(LoginStateView::Start, LoginEventView::Response(first), urls, client);
    if let LoginActionView::Send(request2) = action2 {
        let values = set_cookies_of(first)->0;
        lemma_merge_all(client.cookies, values);
        lemma_jar_holds_latest_once(client.cookies, values, name, value, last);
        let (state3, action3, client3) = model::login(state2, LoginEventView::Response(second), urls, client2);
        if let LoginActionView::Send(request3) = action3 {
            let later = set_cookies_of(second)->0;
            lemma_merge_all(client2.cookies, later);
            lemma_added_all_keeps(client2.cookies, later, name);
            lemma_added_all_distinct(client2.cookies, later);
            let at = lemma_lookup_entry(client3.cookies, name);
            lemma_render_carries(client3.cookies, at);
            if forall|j: int| 0 <= j < later.len() ==> !sets(#[trigger] later[j], name) {
                lemma_added_all_untouched(client2.cookies, later, name);
            }
        }
    }
}

/// There is something to send for as long as the sign-in has not ended, and
/// nothing once it has: at its beginning and after each step.
pub proof fn lemma_stop_is_the_end(account: Seq<char>, state: LoginStateView, event: LoginEventView, urls: ApiUrlView, client: ClientView)
    ensures
        ({
            let (first, action) = model::login_start(account, urls, client);
            action is Stop <==> first is Failed
        }),
        ({
            let (after, action, left) = model::login(state, event, urls, client);
            action is Stop <==> after is CodeExchanged || after is Failed
        }),
{
}

/// A sign-in that has ended stays as it is, whatever is reported to it, and
/// leaves the client as it is.
pub proof fn lemma_ended_stays(state: LoginStateView, event: LoginEventView, urls: ApiUrlView, client: ClientView)
    requires
        state is CodeExchanged || state is Failed,
    ensures
        model::login(state, event, urls, client) == (state, LoginActionView::Stop, client),
{
}

/// What the three calls give when each is made in its turn and none is made
/// after a failure: the first failure, or the client signed in.
pub open spec fn in_sequence(account: Seq<char>, urls: ApiUrlView, client: ClientView, first: HttpResponseView, second: HttpResponseView, third: HttpResponseView) -> (Result<(), LoginErrorView>, ClientView) {
    match model::login_oauth2_request(account, urls, client) {
        Err(e) => (Err(e), client),
        Ok(_) => {
            let (envelope, client) = model::login_oauth2(first, client);
            match envelope {
                Err(e) => (Err(e), client),
                Ok(envelope) => match model::oauth2_callback_request(urls, client) {
                    Err(e) => (Err(e), client),
                    Ok(_) => {
                        let (code, client) = model::oauth2_callback(envelope, second, client);
                        match code {
                            Err(e) => (Err(e), client),
                            Ok(code) => match model::login_by_code_request(code, urls, client) {
                                Err(e) => (Err(e), client),
                                Ok(_) => model::login_by_code(third, client),
                            },
                        }
                    },
                },
            }
        },
    }
}

/// Where a sign-in ends that is begun with `login_start` and taken on with
/// `login` for as long as there is something to send, the transport
/// delivering `first`, `second` and `third` in answer.
pub open spec fn driven(account: Seq<char>, urls: ApiUrlView, client: ClientView, first: HttpResponseView, second: HttpResponseView, third: HttpResponseView) -> (LoginStateView, LoginActionView, ClientView) {
    let (state, action) = model::login_start(account, urls, client);
    if action is Stop {
        (state, action, client)
    } else {
        let (state, action, client) = model::login(state, LoginEventView::Response(first), urls, client);
        if action is Stop {
            (state, action, client)
        } else {
            let (state, action, client) = model::login(state, LoginEventView::Response(second), urls, client);
            if action is Stop {
                (state, action, client)
            } else {
                model::login(state, LoginEventView::Response(third), urls, client)
            }
        }
    }
}

/// A sign-in that is driven to its end makes the three calls in sequence: it
/// ends signed in where all of them succeed, and failed with the first
/// failure otherwise; by then nothing is left to send.
pub proof fn lemma_driven_in_sequence(account: Seq<char>, urls: ApiUrlView, client: ClientView, first: HttpResponseView, second: HttpResponseView, third: HttpResponseView)
    ensures
        ({
            let (state, action, left) = driven(account, urls, client, first, second, third);
            let (done, kept) = in_sequence(account, urls, client, first, second, third);
            &&& action is Stop
            &&& left == kept
            &&& state == match done {
                Ok(_) => LoginStateView::CodeExchanged,
                Err(e) => LoginStateView::Failed(e),
            }
        }),
{
}

} // verus!
