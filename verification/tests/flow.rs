use natayark_login::auth::Auth;
use natayark_login::client::{ApiUrl, Client};
use natayark_login::envelope::{Login, LoginData};
use natayark_login::error::LoginError;
use natayark_login::http::{Header, HttpRequest, HttpResponse, Method, ResponseHeader};
use natayark_login::login::{login, login_start, LoginAction, LoginEvent, LoginState};

const OAUTH2_URL: &str = "https://id.example/api/login";
const OAUTH2_CALLBACK: &str = "https://id.example/api/callback";
const LOGIN_CALLBACK: &str = "https://api.example/oauth2/callback?code=";
const ACCOUNT: &str = r#"{"user":"example@example.com","password":"password"}"#;

fn api() -> ApiUrl {
    ApiUrl {
        oauth2_url: OAUTH2_URL.to_string(),
        oauth2_callback: OAUTH2_CALLBACK.to_string(),
        login_callback: LOGIN_CALLBACK.to_string(),
    }
}

fn header(name: &str, value: &str) -> ResponseHeader {
    ResponseHeader { name: name.to_string(), value: value.as_bytes().to_vec() }
}

fn answer(set_cookies: &[&str], authorization: Option<&str>, body: &str) -> LoginEvent {
    let mut headers = vec![header("date", "Wed, 28 Oct 2026 10:00:00 GMT")];
    headers.extend(set_cookies.iter().map(|c| header("set-cookie", c)));
    headers.extend(authorization.iter().map(|a| header("authorization", a)));
    headers.push(header("content-type", "application/json"));
    LoginEvent::Response(HttpResponse { headers, body: body.as_bytes().to_vec() })
}

fn post(url: &str, cookie: &str, body: &str) -> HttpRequest {
    HttpRequest {
        method: Method::Post,
        url: url.to_string(),
        headers: vec![
            Header { name: "Content-Type".to_string(), value: "application/json".to_string() },
            Header { name: "Cookie".to_string(), value: cookie.to_string() },
        ],
        body: body.to_string(),
    }
}

fn accepted_first() -> LoginEvent {
    answer(&["sid=abc123; Path=/; HttpOnly"], None, r#"{"flag":true,"msg":"ok","data":{"id":1}}"#)
}

fn accepted_second() -> LoginEvent {
    answer(&[], None, r#"{"flag":true,"msg":"ok","data":{"code":"xyz"}}"#)
}

fn accepted_third() -> LoginEvent {
    answer(&["token=t1"], Some("Bearer eyJ.abc"), r#"{"flag":true,"msg":"ok","data":"session-42"}"#)
}

fn stale_auth() -> Auth {
    Auth { authorization: "Bearer old".to_string(), session: "old-session".to_string() }
}

/// Plays the provider: answers each request with the next of `answers`, and
/// gives back the state in which the sign-in ended and the requests it sent.
fn run(client: &mut Client, answers: Vec<LoginEvent>) -> (LoginState, Vec<HttpRequest>) {
    let urls = api();
    let mut sent = Vec::new();
    let mut answers = answers.into_iter();
    let (mut state, mut action) = login_start(ACCOUNT, &urls, client);
    loop {
        match action {
            LoginAction::Send(request) => {
                sent.push(request);
                let event = answers.next().expect("one request more than there are answers");
                let step = login(state, event, &urls, client);
                state = step.0;
                action = step.1;
            }
            LoginAction::Stop => {
                assert!(answers.next().is_none());
                return (state, sent);
            }
        }
    }
}

#[test]
fn test_login() {
    let mut client = Client::new();
    let (state, sent) = run(&mut client, vec![accepted_first(), accepted_second(), accepted_third()]);
    assert_eq!(state, LoginState::CodeExchanged);
    assert_eq!(
        sent,
        vec![
            post(OAUTH2_URL, "", ACCOUNT),
            post(OAUTH2_CALLBACK, "sid=abc123", ""),
            post("https://api.example/oauth2/callback?code=xyz", "sid=abc123", ""),
        ]
    );
    println!("auth: {:#?}", client.auth);
    assert_eq!(
        client.auth,
        Auth { authorization: "Bearer eyJ.abc".to_string(), session: "session-42".to_string() }
    );
    assert_eq!(client.cookies.to_string(), "sid=abc123; token=t1");
}

#[test]
fn the_session_cookie_and_the_code_are_carried_on() {
    let urls = api();
    let mut client = Client::new();
    let (state, action) = login_start(ACCOUNT, &urls, &client);
    assert_eq!(state, LoginState::Start);
    assert_eq!(action, LoginAction::Send(post(OAUTH2_URL, "", ACCOUNT)));

    let first = answer(&["sid=abc123"], None, r#"{"flag":true,"msg":"","data":{"user":{"id":7}}}"#);
    let (state, action) = login(state, first, &urls, &mut client);
    assert_eq!(
        state,
        LoginState::OAuth2Submitted(Login {
            flag: true,
            msg: String::new(),
            data: Some(LoginData::Other),
            code: None,
        })
    );
    match &action {
        LoginAction::Send(request) => {
            assert_eq!(request.url, OAUTH2_CALLBACK);
            assert!(request.headers.contains(&Header { name: "Cookie".to_string(), value: "sid=abc123".to_string() }));
        }
        LoginAction::Stop => panic!("the second call was not made"),
    }

    let second = answer(&[], None, r#"{"flag":true,"msg":"","data":{"code":"xyz"}}"#);
    let (state, action) = login(state, second, &urls, &mut client);
    assert_eq!(state, LoginState::CallbackExchanged);
    assert_eq!(action, LoginAction::Send(post(&format!("{}xyz", LOGIN_CALLBACK), "sid=abc123", "")));
}

#[test]
fn an_envelope_without_msg_is_not_decoded() {
    let mut client = Client::new();
    let (state, sent) =
        run(&mut client, vec![answer(&["sid=abc123"], None, r#"{"flag":true,"data":{"id":1}}"#)]);
    assert_eq!(state, LoginState::Failed(LoginError::Decode));
    assert_eq!(sent.len(), 1);
}

#[test]
fn a_refusal_of_the_callback_ends_the_sign_in() {
    let mut client = Client::new();
    let (state, sent) = run(
        &mut client,
        vec![accepted_first(), answer(&[], None, r#"{"flag":false,"msg":"expired session","code":4001}"#)],
    );
    assert_eq!(
        state,
        LoginState::Failed(LoginError::Provider { code: 4001, msg: "expired session".to_string() })
    );
    assert_eq!(sent, vec![post(OAUTH2_URL, "", ACCOUNT), post(OAUTH2_CALLBACK, "sid=abc123", "")]);
    assert_eq!(client.auth, Auth::new());
}

#[test]
fn a_last_response_without_authorization_ends_the_sign_in() {
    let mut client = Client::new();
    let (state, sent) = run(
        &mut client,
        vec![
            accepted_first(),
            accepted_second(),
            answer(&[], None, r#"{"flag":true,"msg":"ok","data":"session-42"}"#),
        ],
    );
    assert_eq!(state, LoginState::Failed(LoginError::Decode));
    assert_eq!(sent.len(), 3);
    assert_eq!(client.auth, Auth::new());
    assert_eq!(client.auth, Auth { authorization: String::new(), session: String::new() });
}

#[test]
fn a_refusal_of_the_credentials_ends_the_sign_in() {
    let mut client = Client::new();
    client.auth = stale_auth();
    let (state, sent) =
        run(&mut client, vec![answer(&["sid=abc123"], None, r#"{"flag":false,"msg":"wrong password"}"#)]);
    assert_eq!(state, LoginState::Failed(LoginError::Provider { code: -1, msg: "wrong password".to_string() }));
    assert_eq!(sent.len(), 1);
    assert_eq!(client.auth, stale_auth());
}

#[test]
fn a_refusal_of_the_code_ends_the_sign_in() {
    let mut client = Client::new();
    client.auth = stale_auth();
    let (state, sent) = run(
        &mut client,
        vec![
            accepted_first(),
            accepted_second(),
            answer(&[], Some("Bearer new"), r#"{"flag":false,"msg":"bad code","code":-7,"data":"s"}"#),
        ],
    );
    assert_eq!(state, LoginState::Failed(LoginError::Provider { code: -7, msg: "bad code".to_string() }));
    assert_eq!(sent.len(), 3);
    assert_eq!(client.auth, stale_auth());
}

#[test]
fn a_callback_without_code_ends_the_sign_in() {
    let mut client = Client::new();
    let (state, sent) =
        run(&mut client, vec![accepted_first(), answer(&[], None, r#"{"flag":true,"msg":"ok","data":"xyz"}"#)]);
    assert_eq!(state, LoginState::Failed(LoginError::Decode));
    assert_eq!(sent.len(), 2);
}

#[test]
fn a_transport_failure_ends_the_sign_in_at_every_call() {
    for calls in 0..3 {
        let mut answers = vec![accepted_first(), accepted_second(), accepted_third()];
        answers.truncate(calls);
        answers.push(LoginEvent::TransportFailure);
        let mut client = Client::new();
        client.auth = stale_auth();
        let (state, sent) = run(&mut client, answers);
        assert_eq!(state, LoginState::Failed(LoginError::Transport));
        assert_eq!(sent.len(), calls + 1);
        assert_eq!(client.auth, stale_auth());
    }
}

#[test]
fn an_ended_sign_in_stays_as_it_is() {
    let urls = api();
    let mut client = Client::new();
    client.cookies.add_cookie("sid=abc123").unwrap();
    client.auth = stale_auth();
    for event in [accepted_first(), accepted_third(), LoginEvent::TransportFailure] {
        let (state, action) = login(LoginState::CodeExchanged, event, &urls, &mut client);
        assert_eq!(state, LoginState::CodeExchanged);
        assert_eq!(action, LoginAction::Stop);
    }
    for event in [accepted_first(), accepted_third(), LoginEvent::TransportFailure] {
        let failed = LoginState::Failed(LoginError::Provider { code: 4001, msg: "expired session".to_string() });
        let (state, action) = login(failed, event, &urls, &mut client);
        assert_eq!(
            state,
            LoginState::Failed(LoginError::Provider { code: 4001, msg: "expired session".to_string() })
        );
        assert_eq!(action, LoginAction::Stop);
    }
    assert_eq!(client.cookies.to_string(), "sid=abc123");
    assert_eq!(client.auth, stale_auth());
}

#[test]
fn a_sign_in_does_not_begin_with_cookies_that_no_header_can_carry() {
    let mut client = Client::new();
    client.cookies.add_cookie("sid=line\nbreak").unwrap();
    let (state, action) = login_start(ACCOUNT, &api(), &client);
    assert_eq!(state, LoginState::Failed(LoginError::HeaderParse));
    assert_eq!(action, LoginAction::Stop);
}

#[test]
fn a_set_cookie_value_with_a_line_break_ends_the_sign_in() {
    let mut client = Client::new();
    let (state, sent) = run(
        &mut client,
        vec![answer(&["lang=en", "sid=line\nbreak"], None, r#"{"flag":true,"msg":"ok"}"#)],
    );
    assert_eq!(state, LoginState::Failed(LoginError::HeaderParse));
    assert_eq!(sent.len(), 1);
    assert_eq!(client.cookies.to_string(), "");
}

#[test]
fn a_cookie_that_no_header_can_carry_ends_the_sign_in_before_the_next_call() {
    let urls = api();
    let mut client = Client::new();
    client.cookies.add_cookie("old=line\nbreak").unwrap();
    let (state, action) = login(LoginState::Start, accepted_first(), &urls, &mut client);
    assert_eq!(state, LoginState::Failed(LoginError::HeaderParse));
    assert_eq!(action, LoginAction::Stop);
    assert_eq!(client.cookies.get("sid"), Some("abc123".to_string()));

    let first = Login { flag: true, msg: "ok".to_string(), data: None, code: None };
    let (state, action) = login(LoginState::OAuth2Submitted(first), accepted_second(), &urls, &mut client);
    assert_eq!(state, LoginState::Failed(LoginError::HeaderParse));
    assert_eq!(action, LoginAction::Stop);
}

#[test]
fn cookies_pile_up_over_the_three_calls() {
    let mut client = Client::new();
    client.cookies.add_cookie("seen=before").unwrap();
    let (state, sent) = run(
        &mut client,
        vec![
            answer(&["sid=one; Path=/", "lang=en"], None, r#"{"flag":true,"msg":"ok"}"#),
            answer(&["sid=two", "step=2; Secure"], None, r#"{"flag":true,"msg":"ok","data":{"code":"c-1"}}"#),
            answer(&["lang=fr"], Some("Bearer t"), r#"{"flag":true,"msg":"ok","data":"s"}"#),
        ],
    );
    assert_eq!(state, LoginState::CodeExchanged);
    let cookies: Vec<&str> = sent.iter().map(|request| request.headers[1].value.as_str()).collect();
    assert_eq!(
        cookies,
        vec!["seen=before", "seen=before; sid=one; lang=en", "seen=before; sid=two; lang=en; step=2"]
    );
    assert_eq!(sent[2].url, "https://api.example/oauth2/callback?code=c-1");
    assert_eq!(client.cookies.to_string(), "seen=before; sid=two; lang=fr; step=2");
}
