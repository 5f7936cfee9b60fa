//! Requests and responses as plain values: what this library hands to the
//! transport and what it takes back.

use vstd::prelude::*;
use vstd::string::*;
use vstd::utf8::encode_utf8;

verus! {

/// The method of a request.
#[derive(Clone, Copy, Debug, PartialEq, Eq, Structural)]
pub enum Method {
    Get,
    Post,
}

/// One header of a request.
#[derive(Debug, PartialEq, Eq)]
pub struct Header {
    pub name: String,
    pub value: String,
}

impl View for Header {
    type V = (Seq<char>, Seq<char>);

    open spec fn view(&self) -> (Seq<char>, Seq<char>) {
        (self.name@, self.value@)
    }
}

/// A request for the transport to send.
#[derive(Debug, PartialEq, Eq)]
pub struct HttpRequest {
    pub method: Method,
    pub url: String,
    pub headers: Vec<Header>,
    pub body: String,
}

pub struct HttpRequestView {
    pub method: Method,
    pub url: Seq<char>,
    pub headers: Seq<(Seq<char>, Seq<char>)>,
    pub body: Seq<char>,
}

impl View for HttpRequest {
    type V = HttpRequestView;

    open spec fn view(&self) -> HttpRequestView {
        HttpRequestView {
            method: self.method,
            url: self.url@,
            headers: Seq::new(self.headers@.len(), |i: int| self.headers@[i]@),
            body: self.body@,
        }
    }
}

/// One header of a response: its name, and its value as the bytes that came.
#[derive(Debug, PartialEq, Eq)]
pub struct ResponseHeader {
    pub name: String,
    pub value: Vec<u8>,
}

impl View for ResponseHeader {
    type V = (Seq<char>, Seq<u8>);

    open spec fn view(&self) -> (Seq<char>, Seq<u8>) {
        (self.name@, self.value@)
    }
}

/// A response as the transport received it: its headers in the order in which
/// they came, a name as often as it came, and its body.
#[derive(Debug, PartialEq, Eq)]
pub struct HttpResponse {
    pub headers: Vec<ResponseHeader>,
    pub body: Vec<u8>,
}

pub struct HttpResponseView {
    pub headers: Seq<(Seq<char>, Seq<u8>)>,
    pub body: Seq<u8>,
}

impl View for HttpResponse {
    type V = HttpResponseView;

    open spec fn view(&self) -> HttpResponseView {
        HttpResponseView {
            headers: Seq::new(self.headers@.len(), |i: int| self.headers@[i]@),
            body: self.body@,
        }
    }
}

/// A byte with the letters `A` to `Z` read as `a` to `z`.
pub open spec fn lower(b: u8) -> u8 {
    if 65 <= b <= 90 {
        (b + 32) as u8
    } else {
        b
    }
}

/// Two header names are the same name: written in bytes, as UTF-8, they are
/// equal but for the case of their letters.
pub open spec fn same_name(a: Seq<char>, b: Seq<char>) -> bool {
    let x = encode_utf8(a);
    let y = encode_utf8(b);
    x.len() == y.len() && forall|i: int| 0 <= i < x.len() ==> lower(#[trigger] x[i]) == lower(y[i])
}

/// The values of the headers named `name`, in the order of the headers.
pub open spec fn values_of(headers: Seq<(Seq<char>, Seq<u8>)>, name: Seq<char>) -> Seq<Seq<u8>>
    decreases headers.len(),
{
    if headers.len() == 0 {
        Seq::empty()
    } else if same_name(headers.last().0, name) {
        values_of(headers.drop_last(), name).push(headers.last().1)
    } else {
        values_of(headers.drop_last(), name)
    }
}

/// The value of the first header named `name`, if there is one.
pub open spec fn first_value(headers: Seq<(Seq<char>, Seq<u8>)>, name: Seq<char>) -> Option<Seq<u8>>
    decreases headers.len(),
{
    if headers.len() == 0 {
        None
    } else if same_name(headers[0].0, name) {
        Some(headers[0].1)
    } else {
        first_value(headers.drop_first(), name)
    }
}

/// A byte that reads as a character of a header value: a visible ASCII
/// character, the space or the tab.
pub open spec fn is_visible_byte(b: u8) -> bool {
    (32 <= b && b < 127) || b == 9
}

/// The text that the value of a header reads as: each byte as the character
/// of that code, where every byte is visible.
pub open spec fn text_of(bytes: Seq<u8>) -> Option<Seq<char>> {
    if forall|i: int| 0 <= i < bytes.len() ==> is_visible_byte(#[trigger] bytes[i]) {
        Some(Seq::new(bytes.len(), |i: int| bytes[i] as char))
    } else {
        None
    }
}

/// The texts that `values` read as, where each of them reads as a text.
pub open spec fn texts_of(values: Seq<Seq<u8>>) -> Option<Seq<Seq<char>>> {
    if forall|i: int| 0 <= i < values.len() ==> text_of(#[trigger] values[i]) is Some {
        Some(Seq::new(values.len(), |i: int| text_of(values[i])->0))
    } else {
        None
    }
}

/// The texts of `owned`.
pub open spec fn texts(owned: Seq<String>) -> Seq<Seq<char>> {
    Seq::new(owned.len(), |i: int| owned[i]@)
}

/// A character that may stand in the value of a header that is sent: none of
/// the control characters but the tab.
pub open spec fn header_value_char(c: char) -> bool {
    (c as u32 >= 32 && c as u32 != 127) || c == '\t'
}

/// A text that can be sent as the value of a header.
pub open spec fn is_header_value(text: Seq<char>) -> bool {
    forall|i: int| 0 <= i < text.len() ==> header_value_char(#[trigger] text[i])
}

/// `hyper::header::HeaderValue::from_str`, asked only whether it takes the
/// text. It goes through the bytes of the text and refuses it at the first
/// byte below 32 other than the tab, or equal to 127. The bytes of a
/// character past the ASCII range are all above 127, so the text is taken
/// where each of its characters passes `header_value_char`.
#[verifier::external_body]
pub(crate) fn header_value_taken(text: &str) -> (taken: bool)
    ensures
        taken == is_header_value(text@),
{
    hyper::header::HeaderValue::from_str(text).is_ok()
}

/// `String::push` of the standard library puts one character at the end of
/// the text.
pub assume_specification[ String::push ](text: &mut String, c: char)
    ensures
        final(text)@ == old(text)@.push(c),
;

/// Tells whether two header names are the same name.
pub fn is_same_name(a: &str, b: &str) -> (same: bool)
    ensures
        same == same_name(a@, b@),
{
    let x = a.as_bytes();
    let y = b.as_bytes();
    if x.len() != y.len() {
        return false;
    }
    let mut at: usize = 0;
    while at < x.len()
        invariant
            at <= x@.len(),
            x@.len() == y@.len(),
            x@ == encode_utf8(a@),
            y@ == encode_utf8(b@),
            forall|i: int| 0 <= i < at ==> lower(#[trigger] x@[i]) == lower(y@[i]),
        decreases x@.len() - at,
    {
        let p = x[at];
        let q = y[at];
        let p = if 65 <= p && p <= 90 { p + 32 } else { p };
        let q = if 65 <= q && q <= 90 { q + 32 } else { q };
        if p != q {
            return false;
        }
        at = at + 1;
    }
    true
}

/// Reads the value of a header as a text; `None` where a byte of it is not
/// visible.
pub fn visible_text(bytes: &[u8]) -> (text: Option<String>)
    ensures
        match text {
            Some(text) => text_of(bytes@) == Some(text@),
            None => text_of(bytes@) is None,
        },
{
    let mut text = String::new();
    let mut at: usize = 0;
    while at < bytes.len()
        invariant
            at <= bytes@.len(),
            forall|i: int| 0 <= i < at ==> is_visible_byte(#[trigger] bytes@[i]),
            text@ == Seq::new(at as nat, |i: int| bytes@[i] as char),
        decreases bytes@.len() - at,
    {
        let b = bytes[at];
        if !((32 <= b && b < 127) || b == 9) {
            return None;
        }
        text.push(b as char);
        at = at + 1;
    }
    Some(text)
}

impl HttpResponse {
    /// The values of the headers named `name`, in their order, each as a
    /// text; `None` where one of them does not read as a text.
    pub fn header_texts(&self, name: &str) -> (found: Option<Vec<String>>)
        ensures
            match found {
                Some(found) => texts_of(values_of(self@.headers, name@)) == Some(texts(found@)),
                None => texts_of(values_of(self@.headers, name@)) is None,
            },
    {
        let mut found: Vec<String> = Vec::new();
        let mut at: usize = 0;
        while at < self.headers.len()
            invariant
                at <= self.headers@.len(),
                texts_of(values_of(self@.headers.take(at as int), name@)) == Some(texts(found@)),
            decreases self.headers@.len() - at,
        {
            let ghost seen = self@.headers.take(at as int);
            let ghost next = self@.headers.take(at + 1);
            let ghost before = values_of(seen, name@);
            assert(next.drop_last() =~= seen);
            if is_same_name(self.headers[at].name.as_str(), name) {
                let ghost after = before.push(self.headers@[at as int].value@);
                match visible_text(self.headers[at].value.as_slice()) {
                    Some(text) => {
                        let ghost held = found@;
                        found.push(text);
                        assert(texts(held).len() == before.len());
                        assert forall|i: int| 0 <= i < after.len() implies text_of(#[trigger] after[i]) == Some(
                            texts(found@)[i],
                        ) by {
                            if i < before.len() {
                                assert(texts_of(before)->0[i] == texts(held)[i]);
                            }
                        }
                    },
                    None => {
                        proof {
                            lemma_values_grow(self@.headers, name@, at + 1);
                            assert(values_of(self@.headers, name@)[before.len() as int] == after[before.len() as int]);
                        }
                        return None;
                    },
                }
            }
            at = at + 1;
        }
        assert(self@.headers.take(at as int) =~= self@.headers);
        Some(found)
    }

    /// The value of the first header named `name`, if there is one.
    pub fn first_header(&self, name: &str) -> (found: Option<&Vec<u8>>)
        ensures
            match found {
                Some(value) => first_value(self@.headers, name@) == Some(value@),
                None => first_value(self@.headers, name@) is None,
            },
    {
        let mut at: usize = 0;
        assert(self@.headers.skip(0) =~= self@.headers);
        while at < self.headers.len()
            invariant
                at <= self.headers@.len(),
                first_value(self@.headers.skip(at as int), name@) == first_value(self@.headers, name@),
            decreases self.headers@.len() - at,
        {
            let ghost rest = self@.headers.skip(at as int);
            assert(rest.drop_first() =~= self@.headers.skip(at + 1));
            if is_same_name(self.headers[at].name.as_str(), name) {
                return Some(&self.headers[at].value);
            }
            at = at + 1;
        }
        None
    }
}

/// The values found among the first headers stay the first values found among
/// all of them.
pub proof fn lemma_values_grow(headers: Seq<(Seq<char>, Seq<u8>)>, name: Seq<char>, n: int)
    requires
        0 <= n <= headers.len(),
    ensures
        values_of(headers.take(n), name).len() <= values_of(headers, name).len(),
        forall|i: int| 0 <= i < values_of(headers.take(n), name).len() ==> values_of(headers, name)[i] == values_of(
            headers.take(n),
            name,
        )[i],
    decreases headers.len(),
{
    if n < headers.len() {
        let shorter = headers.drop_last();
        assert(shorter.take(n) =~= headers.take(n));
        lemma_values_grow(shorter, name, n);
    } else {
        assert(headers.take(n) =~= headers);
    }
}

} // verus!
