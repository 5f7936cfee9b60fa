use natayark_login::cookie::{Cookie, CookieJar};
use natayark_login::error::LoginError;

fn jar_of(headers: &[&str]) -> CookieJar {
    let mut jar = CookieJar::new();
    for header in headers {
        assert_eq!(jar.add_cookie(header), Ok(()));
    }
    jar
}

#[test]
fn empty_jar_renders_empty_text() {
    assert_eq!(CookieJar::new().to_string(), "");
}

#[test]
fn parse_takes_the_leading_pair() {
    assert_eq!(
        Cookie::parse("sid=abc123; Path=/; HttpOnly"),
        Some(Cookie { name: "sid".to_string(), value: "abc123".to_string() })
    );
}

#[test]
fn parse_without_attributes() {
    assert_eq!(
        Cookie::parse("sid=abc123"),
        Some(Cookie { name: "sid".to_string(), value: "abc123".to_string() })
    );
}

#[test]
fn parse_splits_at_the_first_equals_sign() {
    assert_eq!(
        Cookie::parse("token=a=b==; Secure"),
        Some(Cookie { name: "token".to_string(), value: "a=b==".to_string() })
    );
}

#[test]
fn parse_keeps_an_empty_value_and_an_empty_name() {
    assert_eq!(Cookie::parse("sid="), Some(Cookie { name: "sid".to_string(), value: String::new() }));
    assert_eq!(Cookie::parse("=v"), Some(Cookie { name: String::new(), value: "v".to_string() }));
}

#[test]
fn parse_keeps_spaces_as_they_stand() {
    assert_eq!(
        Cookie::parse("a = 1 ; Path=/"),
        Some(Cookie { name: "a ".to_string(), value: " 1 ".to_string() })
    );
}

#[test]
fn parse_counts_characters_not_bytes() {
    assert_eq!(
        Cookie::parse("n\u{e9}=\u{4e16}\u{754c}; Path=/"),
        Some(Cookie { name: "n\u{e9}".to_string(), value: "\u{4e16}\u{754c}".to_string() })
    );
}

#[test]
fn parse_refuses_a_value_without_equals_sign() {
    assert_eq!(Cookie::parse("sid"), None);
    assert_eq!(Cookie::parse(""), None);
}

#[test]
fn parse_refuses_a_leading_pair_without_equals_sign() {
    assert_eq!(Cookie::parse("sid; Path=/"), None);
    assert_eq!(Cookie::parse(";a=b"), None);
}

#[test]
fn add_cookie_reports_a_header_parse_error_and_keeps_the_jar() {
    let mut jar = jar_of(&["sid=abc123"]);
    assert_eq!(jar.add_cookie("no pair here"), Err(LoginError::HeaderParse));
    assert_eq!(jar.to_string(), "sid=abc123");
}

#[test]
fn one_cookie_renders_without_separator() {
    assert_eq!(jar_of(&["sid=abc123; Path=/"]).to_string(), "sid=abc123");
}

#[test]
fn cookies_render_in_the_order_of_their_names() {
    let jar = jar_of(&["sid=abc123; Path=/", "lang=en", "theme=dark; Max-Age=60"]);
    assert_eq!(jar.to_string(), "sid=abc123; lang=en; theme=dark");
}

#[test]
fn a_later_value_takes_the_place_of_the_earlier_one() {
    let jar = jar_of(&["sid=one", "lang=en", "sid=two; Path=/"]);
    assert_eq!(jar.to_string(), "sid=two; lang=en");
    assert_eq!(jar.get("sid"), Some("two".to_string()));
    assert_eq!(jar.get("lang"), Some("en".to_string()));
}

#[test]
fn the_jar_holds_the_latest_value_of_each_name_once() {
    let headers = ["a=1", "b=1", "a=2", "c=1", "b=2", "a=3", "c=2"];
    let jar = jar_of(&headers);
    let rendered = jar.to_string();
    assert_eq!(rendered, "a=3; b=2; c=2");
    for name in ["a", "b", "c"] {
        let prefix = format!("{}=", name);
        let times = rendered.split("; ").filter(|pair| pair.starts_with(&prefix)).count();
        assert_eq!(times, 1);
    }
    assert_eq!(jar.get("a"), Some("3".to_string()));
    assert_eq!(jar.get("b"), Some("2".to_string()));
    assert_eq!(jar.get("c"), Some("2".to_string()));
}

#[test]
fn get_tells_a_name_that_is_not_held() {
    let jar = jar_of(&["sid=abc123"]);
    assert_eq!(jar.get("other"), None);
    assert_eq!(CookieJar::new().get("sid"), None);
}

#[test]
fn names_are_told_apart_by_case() {
    let jar = jar_of(&["sid=1", "SID=2"]);
    assert_eq!(jar.to_string(), "sid=1; SID=2");
}
