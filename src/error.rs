//! Error kinds shared by every component.
use vstd::prelude::*;

verus! {

/// The url crate's parse error, carried through as it is.
#[verifier::external_type_specification]
#[verifier::external_body]
pub struct ExParseError(url::ParseError);

/// The closed set of failures surfaced by the library.
#[derive(Debug, PartialEq)]
pub enum Error {
    /// The RPC channel failed.
    Transport(String),
    /// The RPC returned a non-OK status.
    Status(String),
    /// The local SQLite engine reported an error.
    Sqlite(String),
    /// A filesystem operation failed.
    Io(String),
    /// The server URL could not be parsed.
    UrlParse(url::ParseError),
    /// The message-bus layer failed.
    Sync(String),
    /// The server reported an SQL error; the text is kept verbatim.
    Query(String),
    /// The session was closed.
    ConnectionClosed,
    /// An argument was rejected.
    InvalidParameter(String),
    /// The operation timed out.
    Timeout,
    /// A wire value could not be converted.
    TypeConversion(String),
}

/// Result of every fallible operation of the library.
pub type Result<T> = core::result::Result<T, Error>;

} // verus!
