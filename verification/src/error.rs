//! The ways in which an exchange with the service fails.

use vstd::prelude::*;

verus! {

/// The stage at which an exchange failed. Nothing is tried again: the first
/// failure ends the exchange and is what the caller gets.
#[derive(Debug, Clone, Copy, PartialEq, Eq, Structural)]
pub enum SdkError {
    /// The address built from the caller's id or term is no address.
    UrlConstruction,
    /// The configured `User-Agent` cannot stand in a header.
    RequestConstruction,
    /// The request could not be sent, or the response could not be read whole.
    Transport,
    /// The body of the response is not a document of the expected shape.
    Deserialization,
}

impl SdkError {
    /// A sentence for the failure, for messages and logs.
    pub fn describe(&self) -> (text: &'static str)
        ensures
            text@ == match *self {
                SdkError::UrlConstruction => "the address of the request is not a valid URI"@,
                SdkError::RequestConstruction => "the User-Agent is not a valid header value"@,
                SdkError::Transport => "the request could not be sent or its response could not be read"@,
                SdkError::Deserialization => "the body of the response does not have the expected shape"@,
            },
    {
        match self {
            SdkError::UrlConstruction => "the address of the request is not a valid URI",
            SdkError::RequestConstruction => "the User-Agent is not a valid header value",
            SdkError::Transport => "the request could not be sent or its response could not be read",
            SdkError::Deserialization => "the body of the response does not have the expected shape",
        }
    }
}

} // verus!
