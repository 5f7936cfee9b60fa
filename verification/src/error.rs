//! Why a sign-in stopped.

use vstd::prelude::*;

verus! {

/// The ways a sign-in fails. The first failure ends the sequence.
#[derive(Debug, PartialEq, Eq)]
pub enum LoginError {
    /// The transport could not deliver a request or its response.
    Transport,
    /// A cookie or a header value was malformed.
    HeaderParse,
    /// A response body was not the JSON that its step expects, or a header
    /// that the step needs was absent.
    Decode,
    /// The provider refused: it answered with `flag` set to `false`.
    Provider { code: i32, msg: String },
}

/// A `LoginError` with its message as a text.
pub enum LoginErrorView {
    Transport,
    HeaderParse,
    Decode,
    Provider { code: i32, msg: Seq<char> },
}

impl View for LoginError {
    type V = LoginErrorView;

    open spec fn view(&self) -> LoginErrorView {
        match self {
            LoginError::Transport => LoginErrorView::Transport,
            LoginError::HeaderParse => LoginErrorView::HeaderParse,
            LoginError::Decode => LoginErrorView::Decode,
            LoginError::Provider { code, msg } => LoginErrorView::Provider { code: *code, msg: msg@ },
        }
    }
}

/// A result with what it holds as a mathematical value.
pub open spec fn outcome<T: View>(result: Result<T, LoginError>) -> Result<T::V, LoginErrorView> {
    match result {
        Ok(value) => Ok(value@),
        Err(e) => Err(e@),
    }
}

} // verus!
