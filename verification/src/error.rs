//! What can go wrong in a call to the playground.

use vstd::prelude::*;

verus! {

/// Makes `url::ParseError` known as a type. Nothing is said of its values:
/// the library only passes them on, inside [`Error::Url`].
#[verifier::external_type_specification]
#[verifier::external_body]
pub struct ExParseError(url::ParseError);

/// Why a piece of wire data was turned down.
#[derive(Debug, Clone, PartialEq, Eq)]
pub struct DecodeError {
    /// The name of the field that could not be read; empty where the text as
    /// a whole is at fault.
    pub field: String,
    /// The text that was turned down.
    pub value: String,
}

impl DecodeError {
    /// Whether the error names `field` and carries `value`.
    pub open spec fn tells(self, field: Seq<char>, value: Seq<char>) -> bool {
        self.field@ == field && self.value@ == value
    }

    /// The error that names `field` and carries `value`.
    pub fn new(field: &str, value: &str) -> (r: DecodeError)
        ensures
            r.tells(field@, value@),
    {
        DecodeError { field: field.to_owned(), value: value.to_owned() }
    }
}

/// Every way in which building a request or reading its answer can fail.
#[derive(Debug)]
pub enum Error {
    /// The base URL, or the URL joined from it for an endpoint, is not a
    /// valid absolute URL.
    Url(url::ParseError),
    /// The exchange itself failed, before any status was received. Carries
    /// the cause as the transport described it.
    Transport(String),
    /// The answer's status code lies outside 200 to 299.
    NoSuccess(u16),
    /// The answer's body is not JSON of the expected shape.
    Decode(DecodeError),
}

} // verus!
