use vstd::prelude::*;

verus! {

/// The problem type an ACME server reports for a stale or unknown nonce.
pub const BAD_NONCE: &'static str = "urn:ietf:params:acme:error:badNonce";

/// An ACME problem document as returned with an error status.
pub struct ErrorResponse {
    /// The problem type URN.
    pub ty: String,
    /// The human readable detail, if the server sent one.
    pub detail: Option<String>,
}

/// Errors of the ACME client.
pub enum Error {
    /// A well formed problem document other than a bad nonce.
    Api(ErrorResponse),
    /// The server broke the protocol (missing header, unexpected status, ...).
    InvalidApi(String),
    /// The server refused the nonce; the request may be retried with a new one.
    BadNonce,
    /// The exchange itself failed: connection, TLS or I/O.
    Transport(String),
    /// The operation needs an account and the client has none.
    Unauthorized(String),
    /// A local error: bad input, a missing challenge or token, ...
    Client(String),
}

impl Error {
    /// Whether this is the retryable bad-nonce error.
    pub fn is_bad_nonce(&self) -> (r: bool)
        ensures
            r == (self is BadNonce),
    {
        match self {
            Error::BadNonce => true,
            _ => false,
        }
    }
}

} // verus!
