//! The closed error taxonomy of the client.

use vstd::prelude::*;
use vstd::string::{StrSliceExecFns, StringExecFns};
use crate::text::{append_nat_u32, nat_text};

verus! {

/// Everything a call can fail with. Every failure is returned; nothing is
/// retried or swallowed.
#[derive(Debug, Clone, PartialEq, Eq)]
pub enum UnifiError {
    /// The transport failed before a response arrived; the shell around
    /// the library fills in the transport's own message.
    Http(String),
    /// The server answered with a non-success status and a parseable error
    /// envelope: its status code and message.
    Api { status_code: u16, message: String },
    /// A constructed URL does not parse; carries the offending URL text.
    Url(String),
    /// The connection could not be configured; carries the reason.
    Config(String),
    /// A response body could not be decoded as the expected shape.
    Deserialization(String),
}

/// The shape of a [`UnifiError`] in specifications.
pub enum UnifiErrorV {
    Http(Seq<char>),
    Api { status_code: u16, message: Seq<char> },
    Url(Seq<char>),
    Config(Seq<char>),
    Deserialization(Seq<char>),
}

impl View for UnifiError {
    type V = UnifiErrorV;

    open spec fn view(&self) -> UnifiErrorV {
        match self {
            UnifiError::Http(m) => UnifiErrorV::Http(m@),
            UnifiError::Api { status_code, message } => UnifiErrorV::Api {
                status_code: *status_code,
                message: message@,
            },
            UnifiError::Url(m) => UnifiErrorV::Url(m@),
            UnifiError::Config(m) => UnifiErrorV::Config(m@),
            UnifiError::Deserialization(m) => UnifiErrorV::Deserialization(m@),
        }
    }
}

/// The text of an error, one line per variant.
pub open spec fn spec_error_text(e: UnifiErrorV) -> Seq<char> {
    match e {
        UnifiErrorV::Http(m) => "HTTP error: "@ + m,
        UnifiErrorV::Api { status_code, message } => "API error: "@ + nat_text(
            status_code as int,
        ) + " - "@ + message,
        UnifiErrorV::Url(m) => "Invalid URL: "@ + m,
        UnifiErrorV::Config(m) => "Configuration error: "@ + m,
        UnifiErrorV::Deserialization(m) => "Deserialization error: "@ + m,
    }
}

impl UnifiError {
    /// Prints the error as one line of text.
    pub fn describe(&self) -> (r: String)
        ensures
            r@ == spec_error_text(self@),
    {
        let mut out = String::new();
        match self {
            UnifiError::Http(m) => {
                out.append("HTTP error: ");
                out.append(m.as_str());
            },
            UnifiError::Api { status_code, message } => {
                out.append("API error: ");
                append_nat_u32(&mut out, *status_code as u32);
                out.append(" - ");
                out.append(message.as_str());
            },
            UnifiError::Url(m) => {
                out.append("Invalid URL: ");
                out.append(m.as_str());
            },
            UnifiError::Config(m) => {
                out.append("Configuration error: ");
                out.append(m.as_str());
            },
            UnifiError::Deserialization(m) => {
                out.append("Deserialization error: ");
                out.append(m.as_str());
            },
        }
        assert(out@ =~= spec_error_text(self@));
        out
    }
}

} // verus!
