//! Layered error taxonomy. Every failure is surfaced as a structured,
//! distinguishable value so callers can branch on its kind; no kind is ever
//! collapsed into an opaque string. Secrets (client secret, access token)
//! appear in no variant, so no rendering of an error can leak them.

use vstd::prelude::*;

verus! {

/// Failure of the credential provider: either the configured tenant id or
/// authority host cannot form a valid endpoint (fatal, detected before any
/// network traffic), or the token exchange itself failed.
#[derive(Debug, Clone, PartialEq, Eq)]
pub enum CredentialError {
    /// Configuration error: the token endpoint could not be constructed.
    TokenEndpoint { tenant_id: String },
    /// Configuration error: the authorize endpoint could not be constructed.
    AuthorizeEndpoint { tenant_id: String },
    /// The identity provider returned a structured error; `description` is its
    /// description text, surfaced verbatim.
    ServerDescribed { description: String },
    /// Any other exchange failure (network, protocol, malformed response),
    /// deliberately without internal detail.
    Exchange,
}

/// The descriptive text of a credential failure. The client secret is not part
/// of any variant, so no message can contain it.
pub open spec fn spec_credential_message(e: CredentialError) -> Seq<char> {
    match e {
        CredentialError::TokenEndpoint { tenant_id } => {
            "Failed to construct token endpoint with tenant id "@ + tenant_id@
        },
        CredentialError::AuthorizeEndpoint { tenant_id } => {
            "Failed to construct authorize endpoint with tenant id "@ + tenant_id@
        },
        CredentialError::ServerDescribed { description } => description@,
        CredentialError::Exchange => "OAuth2 error"@,
    }
}

impl CredentialError {
    /// True of the two endpoint-construction variants: fatal configuration
    /// errors that must never be retried.
    pub open spec fn is_configuration(&self) -> bool {
        self is TokenEndpoint || self is AuthorizeEndpoint
    }

    /// Renders the failure for operators.
    pub fn message(&self) -> (r: String)
        ensures
            r@ == spec_credential_message(*self),
    {
        match self {
            CredentialError::TokenEndpoint { tenant_id } => {
                let mut m = "Failed to construct token endpoint with tenant id ".to_owned();
                m.append(tenant_id.as_str());
                m
            },
            CredentialError::AuthorizeEndpoint { tenant_id } => {
                let mut m = "Failed to construct authorize endpoint with tenant id ".to_owned();
                m.append(tenant_id.as_str());
                m
            },
            CredentialError::ServerDescribed { description } => description.clone(),
            CredentialError::Exchange => "OAuth2 error".to_owned(),
        }
    }
}

/// Failure of a dispatched operation. Exactly one kind describes each failed
/// call; raw response bytes are retained wherever a body was read, so the
/// literal payload stays available for diagnosis.
#[derive(Debug, Clone, PartialEq, Eq)]
pub enum OperationError {
    /// The status code was not in the operation's declared table; carries the
    /// code and the raw body verbatim, with no attempt to infer meaning.
    UnexpectedResponse { status_code: u16, body: Vec<u8> },
    /// The outbound request could not be assembled by the transport.
    BuildRequestError { message: String },
    /// The transport failed to deliver the request (connection, timeout, TLS).
    ExecuteRequestError { message: String },
    /// The response body could not be fully read.
    ResponseBytesError { message: String },
    /// The body was read but is not well-formed JSON where a decoded payload
    /// or error envelope was expected; retains the bytes that failed to
    /// parse.
    DeserializeError { body: Vec<u8> },
    /// A status code outside the declared table, for an operation that
    /// interprets non-success statuses through the provider-wide structured
    /// error envelope; carries the code and the validated envelope bytes.
    DefaultErrorResponse { status_code: u16, body: Vec<u8> },
    /// Token acquisition failed before the request was sent, wrapping the
    /// credential provider's failure.
    GetTokenError { source: CredentialError },
}

} // verus!
