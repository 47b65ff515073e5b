//! Everything that can stop a command before it produces its output.
use vstd::prelude::*;
use vstd::string::*;

verus! {

/// Why a command could not produce its output.
#[derive(Debug, PartialEq, Eq)]
pub enum ClientError {
    /// The secret store's address is not configured.
    MissingEndpoint,
    /// Neither the environment nor a dotfile holds a token.
    NoToken,
    /// The secret store answered with text that is not a JSON object.
    InvalidJson,
    /// The secret store reported errors; the payload is their JSON text.
    Upstream(String),
    /// The `data` field of the answer is not a JSON object.
    DataNotObject,
    /// The value under this key of `data` is not a JSON string.
    NotAString(String),
}

/// The one-line description of `e` for the user.
pub open spec fn message_spec(e: ClientError) -> Seq<char> {
    match e {
        ClientError::MissingEndpoint => "the secret store's address is not set"@,
        ClientError::NoToken => "No token found"@,
        ClientError::InvalidJson => "Received invalid JSON from the secret store."@,
        ClientError::Upstream(p) => "Errors from the secret store: "@ + p@ + "."@,
        ClientError::DataNotObject => "Expected 'data' to be an object."@,
        ClientError::NotAString(k) => "Expected the value of '"@ + k@ + "' to be a string."@,
    }
}

impl ClientError {
    /// A one-line description for the user.
    pub fn message(&self) -> (r: String)
        ensures
            r@ == message_spec(*self),
    {
        match self {
            ClientError::MissingEndpoint => String::from_str("the secret store's address is not set"),
            ClientError::NoToken => String::from_str("No token found"),
            ClientError::InvalidJson => String::from_str("Received invalid JSON from the secret store."),
            ClientError::Upstream(e) => {
                let mut s = String::from_str("Errors from the secret store: ");
                s.append(e.as_str());
                s.append(".");
                s
            },
            ClientError::DataNotObject => String::from_str("Expected 'data' to be an object."),
            ClientError::NotAString(k) => {
                let mut s = String::from_str("Expected the value of '");
                s.append(k.as_str());
                s.append("' to be a string.");
                s
            },
        }
    }
}

} // verus!
