use vstd::prelude::*;

verus! {

/// The failures that the authentication layer reports to a caller.
#[derive(Debug, Clone, Copy, PartialEq, Eq, Structural)]
pub enum AuthError {
    /// The `state` of a login callback does not match the stored CSRF value.
    CsrfMismatch,
    /// The presented token is malformed or its signature does not verify.
    TokenInvalid,
    /// A token expired, and no session record exists to refresh it from.
    SessionNotFound,
    /// The identity provider rejected or could not serve a token exchange.
    UpstreamExchangeFailure,
    /// The session store could not take the record.
    StorageFailure,
    /// A new token could not be signed.
    TokenEncoding,
}

impl AuthError {
    /// The HTTP status of the error envelope.
    pub open spec fn status_spec(self) -> u16 {
        match self {
            AuthError::CsrfMismatch => 400,
            AuthError::TokenInvalid => 403,
            AuthError::SessionNotFound => 403,
            AuthError::UpstreamExchangeFailure => 502,
            AuthError::StorageFailure => 500,
            AuthError::TokenEncoding => 500,
        }
    }

    pub fn status_code(&self) -> (r: u16)
        ensures
            r == self.status_spec(),
    {
        match self {
            AuthError::CsrfMismatch => 400,
            AuthError::TokenInvalid => 403,
            AuthError::SessionNotFound => 403,
            AuthError::UpstreamExchangeFailure => 502,
            AuthError::StorageFailure => 500,
            AuthError::TokenEncoding => 500,
        }
    }
}

} // verus!
