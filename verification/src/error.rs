//! Why a document could not be read as a record.

use vstd::prelude::*;
use vstd::string::StringExecFns;

verus! {

/// A failure to read a record from a JSON document.
#[derive(Debug, Clone, PartialEq, Eq)]
pub enum DecodeError {
    /// The text is no JSON document; the parser's message.
    Syntax(String),
    /// A required field is absent; its key.
    MissingField(String),
    /// A text has a content that its place does not admit; the offending text.
    InvalidValue(String),
    /// A value has a shape that its place does not admit; the key or the record's name.
    UnexpectedShape(String),
}

/// The mathematical content of a [`DecodeError`].
pub enum DecodeErrorView {
    Syntax(Seq<char>),
    MissingField(Seq<char>),
    InvalidValue(Seq<char>),
    UnexpectedShape(Seq<char>),
}

impl DeepView for DecodeError {
    type V = DecodeErrorView;

    open spec fn deep_view(&self) -> DecodeErrorView {
        match self {
            DecodeError::Syntax(s) => DecodeErrorView::Syntax(s@),
            DecodeError::MissingField(s) => DecodeErrorView::MissingField(s@),
            DecodeError::InvalidValue(s) => DecodeErrorView::InvalidValue(s@),
            DecodeError::UnexpectedShape(s) => DecodeErrorView::UnexpectedShape(s@),
        }
    }
}

/// The content of a decoding result: the record's view, or the error's.
pub open spec fn outcome<T: DeepView>(r: Result<T, DecodeError>) -> Result<T::V, DecodeErrorView> {
    match r {
        Ok(x) => Ok(x.deep_view()),
        Err(e) => Err(e.deep_view()),
    }
}

/// The error for a required field that is absent.
pub fn missing(key: &str) -> (e: DecodeError)
    ensures
        e.deep_view() == DecodeErrorView::MissingField(key@),
{
    DecodeError::MissingField(key.to_owned())
}

/// The error for a value of the wrong shape at `place`.
pub fn unexpected(place: &str) -> (e: DecodeError)
    ensures
        e.deep_view() == DecodeErrorView::UnexpectedShape(place@),
{
    DecodeError::UnexpectedShape(place.to_owned())
}

/// The error for a text whose content is not admitted.
pub fn invalid(text: &str) -> (e: DecodeError)
    ensures
        e.deep_view() == DecodeErrorView::InvalidValue(text@),
{
    DecodeError::InvalidValue(text.to_owned())
}

/// What an error says in words: what went wrong, and the text that the error carries.
pub open spec fn described(e: DecodeErrorView) -> Seq<char> {
    match e {
        DecodeErrorView::Syntax(message) => "no JSON document: "@ + message,
        DecodeErrorView::MissingField(key) => "missing field: "@ + key,
        DecodeErrorView::InvalidValue(text) => "invalid value: "@ + text,
        DecodeErrorView::UnexpectedShape(place) => "unexpected shape: "@ + place,
    }
}

impl DecodeError {
    /// The error in words.
    pub fn message(&self) -> (r: String)
        ensures
            r@ == described(self.deep_view()),
    {
        match self {
            DecodeError::Syntax(message) => "no JSON document: ".to_owned().concat(
                message.as_str(),
            ),
            DecodeError::MissingField(key) => "missing field: ".to_owned().concat(key.as_str()),
            DecodeError::InvalidValue(text) => "invalid value: ".to_owned().concat(
                text.as_str(),
            ),
            DecodeError::UnexpectedShape(place) => "unexpected shape: ".to_owned().concat(
                place.as_str(),
            ),
        }
    }
}

} // verus!
