//! The failures that the client reports to its caller.

use vstd::prelude::*;

verus! {

/// A failure of an operation of this library. Nothing is retried here: each
/// failure is handed to the caller as it occurred.
#[derive(Debug)]
pub enum SimpleError {
    /// The assertion could not be signed; the text says why.
    Signing(String),
    /// A request could not be sent, or its answer could not be received;
    /// the text says why.
    Transport(String),
    /// The service answered with a status outside the success range; the
    /// body is kept as it came.
    HttpStatus { status: u16, body: String },
    /// The service answered with a success status that has no meaning
    /// where it came; the body is kept as it came.
    UnexpectedStatus { status: u16, body: String },
    /// A body that is no JSON document.
    SerdeError(serde_json::Error),
    /// A JSON document that lacks what was looked for in it.
    UnexpectedShape,
    /// A wait went on for longer than the caller allowed.
    Timeout,
    /// A header value that is no visible ASCII text.
    ToStrError,
    /// An accepted request came back without a location to poll.
    MissingLocation,
    /// A location to poll that is no URI.
    InvalidUri,
    /// A mistake of the user, with the text to show them.
    UsageError(String),
}

} // verus!
