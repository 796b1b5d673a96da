//! The one error of the client: a failed chat call, with a description for
//! the person at the window.

use vstd::prelude::*;

verus! {

/// Why a chat call failed. Both kinds carry a description in plain words;
/// callers at the window see only that text.
#[derive(Debug, PartialEq, Eq)]
pub enum ApiError {
    /// The request did not get through, or the response did not come back
    /// whole: name not resolved, connection refused, timeout, TLS failure.
    Transport(String),
    /// A response came back, but its body is not a chat response.
    Decode(String),
}

/// An [`ApiError`] with its description as text.
pub enum ApiErrorView {
    Transport(Seq<char>),
    Decode(Seq<char>),
}

impl ApiErrorView {
    /// The description that the error carries, whichever its kind.
    pub open spec fn description(self) -> Seq<char> {
        match self {
            ApiErrorView::Transport(description) => description,
            ApiErrorView::Decode(description) => description,
        }
    }
}

impl View for ApiError {
    type V = ApiErrorView;

    open spec fn view(&self) -> ApiErrorView {
        match self {
            ApiError::Transport(description) => ApiErrorView::Transport(description@),
            ApiError::Decode(description) => ApiErrorView::Decode(description@),
        }
    }
}

impl ApiError {
    /// The error as text: its description, with nothing added.
    pub fn to_string(&self) -> (text: String)
        ensures
            text@ == self@.description(),
    {
        match self {
            ApiError::Transport(description) => description.clone(),
            ApiError::Decode(description) => description.clone(),
        }
    }
}

/// The result of a chat call with its texts as sequences of characters.
pub open spec fn chat_result_view(result: Result<String, ApiError>) -> Result<
    Seq<char>,
    ApiErrorView,
> {
    match result {
        Ok(text) => Ok(text@),
        Err(error) => Err(error@),
    }
}

} // verus!
