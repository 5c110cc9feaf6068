//! Typed terminal outcomes of the authorization and token-exchange steps.
//!
//! A CSRF state mismatch is deliberately not here: it is non-terminal and
//! only makes the callback listener keep waiting.

use vstd::prelude::*;

verus! {

/// Every way an authorization attempt or a token request can fail.
#[derive(Debug)]
pub enum AuthError {
    /// An exchange was attempted with no stored verifier.
    ConfigurationError,
    /// The lock guarding the verifier slot was found poisoned.
    LockError,
    /// The provider could not be reached; carries the transport's words.
    TransportError(String),
    /// The provider answered outside the 2xx range.
    ProtocolError { error: String, error_description: Option<String> },
    /// A 2xx body could not be read as a token response.
    ParseError(String),
    /// The loopback callback port could not be bound.
    PortUnavailable,
    /// No valid callback arrived within the externally imposed bound.
    Timeout,
    /// The authorize redirect carried an `error` query parameter.
    ProviderError(String),
}

/// The characters of `AuthError::message`.
pub open spec fn message_chars(e: AuthError) -> Seq<char> {
    match e {
        AuthError::ConfigurationError => "No code verifier found - start auth first"@,
        AuthError::LockError => "verifier store lock poisoned"@,
        AuthError::TransportError(s) => "HTTP error: "@ + s@,
        AuthError::ProtocolError { error, error_description } => match error_description {
            Some(d) => error@ + ": "@ + d@,
            None => error@,
        },
        AuthError::ParseError(s) => "Parse error: "@ + s@,
        AuthError::PortUnavailable => "Failed to start callback server"@,
        AuthError::Timeout => "OAuth timeout - no response received within 5 minutes"@,
        AuthError::ProviderError(s) => "OAuth error: "@ + s@,
    }
}

impl AuthError {
    /// A human-readable description of the failure.
    pub fn message(&self) -> (r: String)
        ensures
            r@ == message_chars(*self),
    {
        match self {
            AuthError::ConfigurationError => String::from_str(
                "No code verifier found - start auth first",
            ),
            AuthError::LockError => String::from_str("verifier store lock poisoned"),
            AuthError::TransportError(s) => {
                let mut m = String::from_str("HTTP error: ");
                m.append(s.as_str());
                m
            },
            AuthError::ProtocolError { error, error_description } => {
                match error_description {
                    Some(d) => {
                        let mut m = error.clone();
                        m.append(": ");
                        m.append(d.as_str());
                        proof {
                            assert(m@ =~= message_chars(*self));
                        }
                        m
                    },
                    None => error.clone(),
                }
            },
            AuthError::ParseError(s) => {
                let mut m = String::from_str("Parse error: ");
                m.append(s.as_str());
                m
            },
            AuthError::PortUnavailable => String::from_str("Failed to start callback server"),
            AuthError::Timeout => String::from_str(
                "OAuth timeout - no response received within 5 minutes",
            ),
            AuthError::ProviderError(s) => {
                let mut m = String::from_str("OAuth error: ");
                m.append(s.as_str());
                m
            },
        }
    }
}

} // verus!
