//! Errors of this crate.

use crate::value::{debug_text, Datum, Value};
use vstd::prelude::*;
use vstd::std_specs::convert::FromSpecImpl;
use vstd::string::*;

verus! {

/// The content of an [`Error`].
pub enum ErrorView {
    String(Seq<char>),
    JsValue(Seq<char>),
    PoisonError(Seq<char>),
    CallbackError(Seq<char>),
}

/// What can go wrong in this crate, each time with its text.
#[derive(Debug)]
pub enum Error {
    /// A failure stated in words.
    String(String),
    /// A value that the host threw or handed back as an error, as it shows.
    JsValue(String),
    /// A lock that was left poisoned, as it shows.
    PoisonError(String),
    /// A failure in a callback, as it shows.
    CallbackError(String),
}

impl View for Error {
    type V = ErrorView;

    open spec fn view(&self) -> ErrorView {
        match *self {
            Error::String(s) => ErrorView::String(s@),
            Error::JsValue(s) => ErrorView::JsValue(s@),
            Error::PoisonError(s) => ErrorView::PoisonError(s@),
            Error::CallbackError(s) => ErrorView::CallbackError(s@),
        }
    }
}

impl ErrorView {
    /// The text that the error carries.
    pub open spec fn text(self) -> Seq<char> {
        match self {
            ErrorView::String(s) => s,
            ErrorView::JsValue(s) => s,
            ErrorView::PoisonError(s) => s,
            ErrorView::CallbackError(s) => s,
        }
    }

    /// The words that stand before the text in the error's message.
    pub open spec fn heading(self) -> Seq<char> {
        match self {
            ErrorView::String(_) => "Error: "@,
            ErrorView::JsValue(_) => "Error: "@,
            ErrorView::PoisonError(_) => "Poison Error: "@,
            ErrorView::CallbackError(_) => "Callback Error: "@,
        }
    }

    /// The message of the error: its heading, then its text.
    pub open spec fn message(self) -> Seq<char> {
        self.heading() + self.text()
    }
}

impl Error {
    /// The message of the error.
    pub fn message(&self) -> (r: String)
        ensures
            r@ == self@.message(),
    {
        match self {
            Error::String(s) => String::from_str("Error: ").concat(s.as_str()),
            Error::JsValue(s) => String::from_str("Error: ").concat(s.as_str()),
            Error::PoisonError(s) => String::from_str("Poison Error: ").concat(s.as_str()),
            Error::CallbackError(s) => String::from_str("Callback Error: ").concat(s.as_str()),
        }
    }
}

impl From<String> for Error {
    /// A failure stated in the given words.
    fn from(v: String) -> (r: Error)
        ensures
            r@ == ErrorView::String(v@),
    {
        Error::String(v)
    }
}

impl FromSpecImpl<String> for Error {
    open spec fn obeys_from_spec() -> bool {
        true
    }

    open spec fn from_spec(v: String) -> Error {
        Error::String(v)
    }
}

impl<'a> From<&'a str> for Error {
    /// A failure stated in the given words.
    fn from(v: &'a str) -> (r: Error)
        ensures
            r@ == ErrorView::String(v@),
    {
        Error::String(String::from_str(v))
    }
}

/// A specification cannot make a text, so `from_spec` says nothing: the
/// contract of `from` speaks of the error's view.
impl<'a> FromSpecImpl<&'a str> for Error {
    open spec fn obeys_from_spec() -> bool {
        false
    }

    open spec fn from_spec(v: &'a str) -> Error {
        arbitrary()
    }
}

impl From<Value> for Error {
    /// The error for a value that the host threw: it carries the value as it
    /// shows.
    fn from(v: Value) -> (r: Error)
        ensures
            r@ == ErrorView::JsValue(debug_text(v@)),
    {
        Error::JsValue(v.debug_text())
    }
}

/// A specification cannot make a text, so `from_spec` says nothing: the
/// contract of `from` speaks of the error's view.
impl FromSpecImpl<Value> for Error {
    open spec fn obeys_from_spec() -> bool {
        false
    }

    open spec fn from_spec(v: Value) -> Error {
        arbitrary()
    }
}

impl From<Error> for String {
    /// The text that the error carries, without its heading.
    fn from(err: Error) -> (r: String)
        ensures
            r@ == err@.text(),
    {
        match err {
            Error::String(s) => s,
            Error::JsValue(s) => s,
            Error::PoisonError(s) => s,
            Error::CallbackError(s) => s,
        }
    }
}

impl FromSpecImpl<Error> for String {
    open spec fn obeys_from_spec() -> bool {
        true
    }

    open spec fn from_spec(err: Error) -> String {
        match err {
            Error::String(s) => s,
            Error::JsValue(s) => s,
            Error::PoisonError(s) => s,
            Error::CallbackError(s) => s,
        }
    }
}

impl From<Error> for Value {
    /// The text that the error carries, as a value to hand to the host.
    fn from(err: Error) -> (r: Value)
        ensures
            r@ == Datum::Text(err@.text()),
    {
        match err {
            Error::String(s) => Value::Text(s),
            Error::JsValue(s) => Value::Text(s),
            Error::PoisonError(s) => Value::Text(s),
            Error::CallbackError(s) => Value::Text(s),
        }
    }
}

impl FromSpecImpl<Error> for Value {
    open spec fn obeys_from_spec() -> bool {
        true
    }

    open spec fn from_spec(err: Error) -> Value {
        match err {
            Error::String(s) => Value::Text(s),
            Error::JsValue(s) => Value::Text(s),
            Error::PoisonError(s) => Value::Text(s),
            Error::CallbackError(s) => Value::Text(s),
        }
    }
}

} // verus!
