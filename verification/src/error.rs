//! The errors that the SDK reports.
use serde_json::Error as JsonError;
use vstd::prelude::*;

verus! {

/// `serde_json::Error`, carried through as it is.
#[verifier::external_type_specification]
#[verifier::external_body]
pub struct ExSerdeJsonError(JsonError);

/// An error of the SDK.
#[derive(Debug)]
pub enum Error {
    /// A caller-supplied id that cannot become the root of a lineage.
    InvalidId { id: String, reason: String },
    /// A background task went away without delivering a result.
    JoinError(String),
    /// An error that the user's own function returned.
    Application { message: String },
    /// The server-side creation of a promise failed.
    PromiseCreation(String),
    /// A message could not be decoded.
    DecodingError(String),
    /// The server failed.
    ServerError { code: u16, message: String },
    /// A value could not be turned into JSON, or JSON into a value.
    SerializationError(JsonError),
}

impl From<JsonError> for Error {
    fn from(e: JsonError) -> (r: Error) {
        Error::SerializationError(e)
    }
}

impl vstd::std_specs::convert::FromSpecImpl<JsonError> for Error {
    open spec fn obeys_from_spec() -> bool {
        true
    }

    open spec fn from_spec(e: JsonError) -> Error {
        Error::SerializationError(e)
    }
}

} // verus!
