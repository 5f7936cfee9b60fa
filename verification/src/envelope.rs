//! The envelope in which the provider answers every call.

use vstd::prelude::*;
use crate::error::{LoginError, LoginErrorView};
use crate::json::{from_slice, get, json_parse, json_value, Json};

verus! {

/// The `data` member of an envelope, as far as the sign-in reads it.
#[derive(Debug, PartialEq, Eq)]
pub enum LoginData {
    /// A JSON string.
    Text(String),
    /// A JSON object whose member `code` is a string: that string.
    Code(String),
    /// Any other JSON value.
    Other,
}

pub enum LoginDataView {
    Text(Seq<char>),
    Code(Seq<char>),
    Other,
}

impl View for LoginData {
    type V = LoginDataView;

    open spec fn view(&self) -> LoginDataView {
        match self {
            LoginData::Text(text) => LoginDataView::Text(text@),
            LoginData::Code(code) => LoginDataView::Code(code@),
            LoginData::Other => LoginDataView::Other,
        }
    }
}

/// One answer of the provider: whether it accepted the call, its message, and
/// the payload and the code where it gave them.
#[derive(Debug, PartialEq, Eq)]
pub struct Login {
    pub flag: bool,
    pub msg: String,
    pub data: Option<LoginData>,
    pub code: Option<i32>,
}

pub struct LoginView {
    pub flag: bool,
    pub msg: Seq<char>,
    pub data: Option<LoginDataView>,
    pub code: Option<i32>,
}

impl View for Login {
    type V = LoginView;

    open spec fn view(&self) -> LoginView {
        LoginView {
            flag: self.flag,
            msg: self.msg@,
            data: match self.data {
                Some(data) => Some(data@),
                None => None,
            },
            code: self.code,
        }
    }
}

/// A member that is absent or `null` counts as not given.
pub open spec fn given(member: Option<Json>) -> Option<Json> {
    match member {
        Some(Json::Null) => None,
        _ => member,
    }
}

/// The payload that a `data` member stands for.
pub open spec fn data_of(json: Json) -> LoginDataView {
    match json {
        Json::Text(text) => LoginDataView::Text(text),
        _ => match json.member("code"@) {
            Some(Json::Text(code)) => LoginDataView::Code(code),
            _ => LoginDataView::Other,
        },
    }
}

/// The code that a `code` member stands for: none where it is not given, the
/// number where it is an integer that an `i32` can hold. The outer `None` is
/// for a member that is given and is no such number.
pub open spec fn code_of(member: Option<Json>) -> Option<Option<i32>> {
    match given(member) {
        None => Some(None),
        Some(Json::Integer(n)) => if i32::MIN <= n <= i32::MAX {
            Some(Some(n as i32))
        } else {
            None
        },
        Some(_) => None,
    }
}

/// The envelope that a JSON document stands for: it has a boolean `flag` and a
/// string `msg`, and its `code`, where given, fits an `i32`.
pub open spec fn envelope_of(json: Json) -> Option<LoginView> {
    match (json.member("flag"@), json.member("msg"@), code_of(json.member("code"@))) {
        (Some(Json::Bool(flag)), Some(Json::Text(msg)), Some(code)) => Some(
            LoginView {
                flag,
                msg,
                data: match given(json.member("data"@)) {
                    Some(data) => Some(data_of(data)),
                    None => None,
                },
                code,
            },
        ),
        _ => None,
    }
}

/// The envelope that a response body stands for, or the failure to decode it.
pub open spec fn decoded(body: Seq<u8>) -> Result<LoginView, LoginErrorView> {
    match json_parse(body) {
        Some(json) => match envelope_of(json) {
            Some(envelope) => Ok(envelope),
            None => Err(LoginErrorView::Decode),
        },
        None => Err(LoginErrorView::Decode),
    }
}

/// What the provider's refusal is reported as: its code, or -1 where it gave
/// none, and its message.
pub open spec fn refusal(envelope: LoginView) -> LoginErrorView {
    LoginErrorView::Provider {
        code: match envelope.code {
            Some(code) => code,
            None => -1i32,
        },
        msg: envelope.msg,
    }
}

impl LoginData {
    /// Reads the payload off a `data` member.
    pub fn from_json(value: &serde_json::Value) -> (data: LoginData)
        ensures
            data@ == data_of(json_value(*value)),
    {
        match value.as_str() {
            Some(text) => LoginData::Text(text.to_owned()),
            None => {
                let code = match get(value, "code") {
                    Some(member) => member.as_str(),
                    None => None,
                };
                match code {
                    Some(code) => LoginData::Code(code.to_owned()),
                    None => LoginData::Other,
                }
            },
        }
    }
}

impl Login {
    /// Reads an envelope off a JSON document; `None` where the document is no
    /// envelope.
    pub fn from_json(value: &serde_json::Value) -> (envelope: Option<Login>)
        ensures
            match envelope {
                Some(envelope) => envelope_of(json_value(*value)) == Some(envelope@),
                None => envelope_of(json_value(*value)) is None,
            },
    {
        let flag = match get(value, "flag") {
            Some(member) => member.as_bool(),
            None => None,
        };
        let msg = match get(value, "msg") {
            Some(member) => member.as_str(),
            None => None,
        };
        let code: Option<i32> = match get(value, "code") {
            Some(member) => if member.is_null() {
                None
            } else {
                match member.as_i64() {
                    Some(n) => if -2147483648 <= n && n <= 2147483647 {
                        Some(n as i32)
                    } else {
                        return None;
                    },
                    None => {
                        return None;
                    },
                }
            },
            None => None,
        };
        let data = match get(value, "data") {
            Some(member) => if member.is_null() {
                None
            } else {
                Some(LoginData::from_json(member))
            },
            None => None,
        };
        match (flag, msg) {
            (Some(flag), Some(msg)) => Some(Login { flag, msg: msg.to_owned(), data, code }),
            _ => None,
        }
    }

    /// Decodes a response body.
    pub fn decode(body: &[u8]) -> (envelope: Result<Login, LoginError>)
        ensures
            match envelope {
                Ok(envelope) => decoded(body@) == Ok::<LoginView, LoginErrorView>(envelope@),
                Err(e) => decoded(body@) == Err::<LoginView, LoginErrorView>(e@),
            },
    {
        match from_slice(body) {
            Ok(value) => match Login::from_json(&value) {
                Some(envelope) => Ok(envelope),
                None => Err(LoginError::Decode),
            },
            Err(_) => Err(LoginError::Decode),
        }
    }

    /// Tells an acceptance from a refusal: the envelope itself where `flag` is
    /// set, the provider's refusal where it is not.
    pub fn accepted(self) -> (envelope: Result<Login, LoginError>)
        ensures
            match envelope {
                Ok(envelope) => self.flag && envelope == self,
                Err(e) => !self.flag && e@ == refusal(self@),
            },
    {
        if self.flag {
            Ok(self)
        } else {
            let code = match self.code {
                Some(code) => code,
                None => -1,
            };
            Err(LoginError::Provider { code, msg: self.msg })
        }
    }
}

} // verus!
