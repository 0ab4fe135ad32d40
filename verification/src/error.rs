//! Everything that can go wrong inside the core.

use vstd::prelude::*;
use crate::text::{push_str, starts_with};
use serde_json::Error as JsonError;

verus! {

#[verifier::external_type_specification]
#[verifier::external_body]
pub struct ExIoError(std::io::Error);

#[verifier::external_type_specification]
#[verifier::external_body]
pub struct ExJsonError(JsonError);

/// Everything that can go wrong inside the core.
#[derive(Debug)]
pub enum Error {
    /// Underlying socket / process I/O failure.
    Io(std::io::Error),
    /// The WebSocket upgrade or framing went wrong.
    Protocol(String),
    /// Chrome accepted the command but answered with an error.
    Cdp { method: String, message: String },
    /// Chrome could not be found, launched, or attached to.
    Browser(String),
    /// A response did not have the shape we required.
    Shape(String),
    /// Serialization / deserialization failure.
    Json(JsonError),
}

/// The result of an operation of the core.
pub type Result<T> = core::result::Result<T, Error>;

/// The text of an I/O error (`<std::io::Error as Display>`). Nothing is
/// claimed of the text: it comes from the operating system.
#[verifier::external_body]
fn io_error_text(e: &std::io::Error) -> String {
    e.to_string()
}

/// The text of a JSON error (`Display` of `serde_json::Error`). Nothing is
/// claimed of the text, which names the line and column serde_json stopped at.
#[verifier::external_body]
pub(crate) fn json_error_text(e: &JsonError) -> String {
    e.to_string()
}

impl Error {
    /// The human-readable description, as the error's `Display` renders it.
    pub fn message(&self) -> (r: String)
        ensures
            match self {
                Error::Io(_) => starts_with(r@, "io: "@),
                Error::Protocol(m) => r@ == "websocket protocol: "@ + m@,
                Error::Cdp { method, message } => r@ == "cdp "@ + method@ + ": "@ + message@,
                Error::Browser(m) => r@ == "browser: "@ + m@,
                Error::Shape(m) => r@ == "unexpected response shape: "@ + m@,
                Error::Json(_) => starts_with(r@, "json: "@),
            },
    {
        let mut r = String::new();
        match self {
            Error::Io(e) => {
                push_str(&mut r, "io: ");
                let t = io_error_text(e);
                let ghost head = r@;
                push_str(&mut r, t.as_str());
                assert(r@.take(head.len() as int) == head);
            },
            Error::Protocol(m) => {
                push_str(&mut r, "websocket protocol: ");
                push_str(&mut r, m.as_str());
            },
            Error::Cdp { method, message } => {
                push_str(&mut r, "cdp ");
                push_str(&mut r, method.as_str());
                push_str(&mut r, ": ");
                push_str(&mut r, message.as_str());
            },
            Error::Browser(m) => {
                push_str(&mut r, "browser: ");
                push_str(&mut r, m.as_str());
            },
            Error::Shape(m) => {
                push_str(&mut r, "unexpected response shape: ");
                push_str(&mut r, m.as_str());
            },
            Error::Json(e) => {
                push_str(&mut r, "json: ");
                let t = json_error_text(e);
                let ghost head = r@;
                push_str(&mut r, t.as_str());
                assert(r@.take(head.len() as int) == head);
            },
        }
        r
    }
}

impl From<std::io::Error> for Error {
    fn from(e: std::io::Error) -> (r: Error) {
        Error::Io(e)
    }
}

impl vstd::std_specs::convert::FromSpecImpl<std::io::Error> for Error {
    open spec fn obeys_from_spec() -> bool {
        true
    }

    open spec fn from_spec(e: std::io::Error) -> Error {
        Error::Io(e)
    }
}

impl From<JsonError> for Error {
    fn from(e: JsonError) -> (r: Error) {
        Error::Json(e)
    }
}

impl vstd::std_specs::convert::FromSpecImpl<JsonError> for Error {
    open spec fn obeys_from_spec() -> bool {
        true
    }

    open spec fn from_spec(e: JsonError) -> Error {
        Error::Json(e)
    }
}

} // verus!
