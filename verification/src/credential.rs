//! The credential provider: exchanges a service-principal identity (tenant id,
//! client id, client secret) for a short-lived bearer token scoped to a named
//! resource, through the OAuth2 client-credentials grant. Preparing the
//! exchange (endpoint construction and validation, scope formation) and
//! interpreting its outcome (expiry arithmetic, error classification) are
//! verified here; the network round trip itself is the caller's, handed plain
//! values in both directions.

use vstd::prelude::*;

use crate::authority_hosts;
use crate::endpoints::{
    authorize_endpoint, authorize_endpoint_of, parses_as_url, tenant_is_single_segment,
    token_endpoint, token_endpoint_of, valid_tenant_segment, well_formed_endpoints,
};
use crate::errors::CredentialError;

verus! {

/// Options that configure how authentication requests are made.
#[derive(Clone, Debug, PartialEq)]
pub struct TokenCredentialOptions {
    /// The authority host to use for authentication requests. The default is
    /// the public-cloud host.
    pub authority_host: Option<String>,
}

impl TokenCredentialOptions {
    /// The authority host in effect: the configured one, or the public-cloud
    /// default when none is configured.
    pub open spec fn spec_authority_host(&self) -> Seq<char> {
        match self.authority_host {
            Some(h) => h@,
            None => authority_hosts::AZURE_PUBLIC_CLOUD@,
        }
    }

    /// The authority host in effect.
    pub fn authority_host(&self) -> (r: &str)
        ensures
            r@ == self.spec_authority_host(),
    {
        match &self.authority_host {
            Some(h) => h.as_str(),
            None => authority_hosts::AZURE_PUBLIC_CLOUD,
        }
    }
}

impl Default for TokenCredentialOptions {
    /// The default options name the public-cloud authority host explicitly.
    fn default() -> (r: Self)
        ensures
            r.authority_host matches Some(h) && h@ == authority_hosts::AZURE_PUBLIC_CLOUD@,
    {
        TokenCredentialOptions {
            authority_host: Some(authority_hosts::AZURE_PUBLIC_CLOUD.to_owned()),
        }
    }
}

/// A bearer token together with the absolute UTC instant (seconds since the
/// Unix epoch) after which it must be considered invalid. The token string is
/// a secret end to end and appears in no error value.
#[derive(Clone, Debug, PartialEq, Eq)]
pub struct TokenResponse {
    /// The opaque bearer token.
    pub access_token: String,
    /// Absolute expiry instant, seconds since the Unix epoch.
    pub expires_on: u64,
}

impl TokenResponse {
    /// Packs a token with its absolute expiry instant.
    pub fn new(access_token: String, expires_on: u64) -> (r: Self)
        ensures
            r.access_token@ == access_token@,
            r.expires_on == expires_on,
    {
        TokenResponse { access_token, expires_on }
    }
}

/// Everything a transport needs to perform the client-credentials exchange:
/// the validated endpoints, the client identity, and the scope string. The
/// client authenticates through request-body credentials, not basic auth.
#[derive(Clone, Debug, PartialEq, Eq)]
pub struct TokenRequest {
    /// The validated token endpoint.
    pub token_url: String,
    /// The validated authorize endpoint.
    pub authorize_url: String,
    /// The application's client id, sent in the request body.
    pub client_id: String,
    /// The application's client secret, sent in the request body.
    pub client_secret: String,
    /// The requested scope: the target resource with the fixed scope suffix.
    pub scope: String,
}

/// The plain outcome of one client-credentials exchange, as the transport saw
/// it: the provider's token payload, the provider's structured error, or a
/// failure with no structured description (network, protocol, malformed
/// response).
#[derive(Clone, Debug, PartialEq, Eq)]
pub enum ExchangeOutcome {
    /// The provider issued a token, with an optional lifetime in seconds.
    Success { access_token: String, expires_in: Option<u64> },
    /// The provider answered with a structured error, possibly described.
    ServerError { error_description: Option<String> },
    /// The exchange failed without a structured server response.
    RequestFailed,
}

/// Absolute expiry instant of a freshly exchanged token: the request time plus
/// the advertised lifetime. A response that omits `expires_in` yields a token
/// with zero remaining lifetime — already expired, never a guessed default. A
/// lifetime that would overflow the representation clamps to the maximum
/// instant.
pub open spec fn spec_expires_on(now: u64, expires_in: Option<u64>) -> u64 {
    match expires_in {
        Some(e) => if now + e <= u64::MAX {
            (now + e) as u64
        } else {
            u64::MAX
        },
        None => now,
    }
}

/// The description text surfaced for a provider error: the provider's own
/// description verbatim when present, a fixed placeholder otherwise.
pub open spec fn spec_server_error_text(error_description: Option<String>) -> Seq<char> {
    match error_description {
        Some(d) => d@,
        None => "Server error without description"@,
    }
}

/// Authenticates to the identity provider using a client secret generated for
/// an application registration.
#[derive(Clone)]
pub struct ClientSecretCredential {
    tenant_id: String,
    client_id: String,
    client_secret: String,
    options: TokenCredentialOptions,
}

impl ClientSecretCredential {
    /// The configured tenant id.
    pub closed spec fn spec_tenant_id(&self) -> Seq<char> {
        self.tenant_id@
    }

    /// The configured client id.
    pub closed spec fn spec_client_id(&self) -> Seq<char> {
        self.client_id@
    }

    /// The configured client secret.
    pub closed spec fn spec_client_secret(&self) -> Seq<char> {
        self.client_secret@
    }

    /// The configured options.
    pub closed spec fn spec_options(&self) -> TokenCredentialOptions {
        self.options
    }

    /// Packs a service-principal identity with its options.
    pub fn new(
        tenant_id: String,
        client_id: String,
        client_secret: String,
        options: TokenCredentialOptions,
    ) -> (c: ClientSecretCredential)
        ensures
            c.spec_tenant_id() == tenant_id@,
            c.spec_client_id() == client_id@,
            c.spec_client_secret() == client_secret@,
            c.spec_options() == options,
    {
        ClientSecretCredential { tenant_id, client_id, client_secret, options }
    }

    fn options(&self) -> (r: &TokenCredentialOptions)
        ensures
            *r == self.spec_options(),
    {
        &self.options
    }

    /// Prepares the client-credentials exchange for a target resource:
    /// constructs and validates the token and authorize endpoints and forms
    /// the scope string. Fails with a fatal configuration error — before any
    /// network traffic — exactly when the configuration cannot form
    /// well-formed endpoints; the token endpoint is checked first.
    pub fn prepare_token_request(&self, resource: &str) -> (r: Result<
        TokenRequest,
        CredentialError,
    >)
        ensures
            ({
                let host = self.spec_options().spec_authority_host();
                let tenant = self.spec_tenant_id();
                &&& r is Ok <==> well_formed_endpoints(host, tenant)
                &&& r matches Ok(q) ==> {
                    &&& q.token_url@ == token_endpoint_of(host, tenant)
                    &&& q.authorize_url@ == authorize_endpoint_of(host, tenant)
                    &&& q.client_id@ == self.spec_client_id()
                    &&& q.client_secret@ == self.spec_client_secret()
                    &&& q.scope@ == resource@ + ".default"@
                }
                &&& (!valid_tenant_segment(tenant) || !crate::endpoints::url_parse_ok(
                    token_endpoint_of(host, tenant),
                )) ==> (r matches Err(e) && e matches CredentialError::TokenEndpoint {
                    tenant_id,
                } && tenant_id@ == tenant)
                &&& (valid_tenant_segment(tenant) && crate::endpoints::url_parse_ok(
                    token_endpoint_of(host, tenant),
                ) && !crate::endpoints::url_parse_ok(authorize_endpoint_of(host, tenant))) ==> (
                r matches Err(e) && e matches CredentialError::AuthorizeEndpoint {
                    tenant_id,
                } && tenant_id@ == tenant)
                &&& r matches Err(e) ==> e.is_configuration()
            }),
    {
        let authority_host = self.options().authority_host();
        let token_url = token_endpoint(authority_host, self.tenant_id.as_str());
        if !(tenant_is_single_segment(self.tenant_id.as_str()) && parses_as_url(
            token_url.as_str(),
        )) {
            return Err(CredentialError::TokenEndpoint { tenant_id: self.tenant_id.clone() });
        }
        let authorize_url = authorize_endpoint(authority_host, self.tenant_id.as_str());
        if !parses_as_url(authorize_url.as_str()) {
            return Err(CredentialError::AuthorizeEndpoint { tenant_id: self.tenant_id.clone() });
        }
        let mut scope = resource.to_owned();
        scope.append(".default");
        Ok(
            TokenRequest {
                token_url,
                authorize_url,
                client_id: self.client_id.clone(),
                client_secret: self.client_secret.clone(),
                scope,
            },
        )
    }
}

/// Maps the outcome of a client-credentials exchange, observed at instant
/// `now` (seconds since the Unix epoch), to a token with an absolute expiry
/// or to the credential failure taxonomy: a provider-described error is
/// surfaced verbatim (only its description), anything else as the generic
/// exchange failure.
pub fn token_from_exchange(outcome: ExchangeOutcome, now: u64) -> (r: Result<
    TokenResponse,
    CredentialError,
>)
    ensures
        r is Ok <==> outcome is Success,
        outcome matches ExchangeOutcome::Success { access_token, expires_in } ==> (r matches Ok(t)
            && t.access_token@ == access_token@ && t.expires_on == spec_expires_on(
            now,
            expires_in,
        )),
        outcome matches ExchangeOutcome::ServerError { error_description } ==> (r matches Err(e)
            && e matches CredentialError::ServerDescribed { description } && description@
            == spec_server_error_text(error_description)),
        outcome is RequestFailed ==> (r matches Err(e) && e is Exchange),
{
    match outcome {
        ExchangeOutcome::Success { access_token, expires_in } => {
            let expires_on: u64 = match expires_in {
                Some(e) => if now <= u64::MAX - e {
                    now + e
                } else {
                    u64::MAX
                },
                None => now,
            };
            Ok(TokenResponse { access_token, expires_on })
        },
        ExchangeOutcome::ServerError { error_description } => {
            let description = match error_description {
                Some(d) => d,
                None => "Server error without description".to_owned(),
            };
            Err(CredentialError::ServerDescribed { description })
        },
        ExchangeOutcome::RequestFailed => Err(CredentialError::Exchange),
    }
}

/// Relies on chrono::Utc::now, the current UTC wall-clock time, rendered as
/// whole seconds since the Unix epoch. The result depends on the clock, so
/// nothing is assumed of it; chrono itself refuses (panics on) a system clock
/// set before the Unix epoch, so in practice the reading is non-negative.
#[verifier::external_body]
fn current_unix_timestamp() -> i64 {
    chrono::Utc::now().timestamp()
}

/// Maps an exchange outcome exactly as `token_from_exchange`, taking the
/// request time from the wall clock. A negative clock reading is clamped to
/// the epoch only to keep the conversion total; the clock source itself never
/// returns one. The expiry instant depends on the clock; everything else is
/// pinned.
pub fn token_from_exchange_now(outcome: ExchangeOutcome) -> (r: Result<
    TokenResponse,
    CredentialError,
>)
    ensures
        r is Ok <==> outcome is Success,
        outcome matches ExchangeOutcome::Success { access_token, .. } ==> (r matches Ok(t)
            && t.access_token@ == access_token@),
        outcome matches ExchangeOutcome::ServerError { error_description } ==> (r matches Err(e)
            && e matches CredentialError::ServerDescribed { description } && description@
            == spec_server_error_text(error_description)),
        outcome is RequestFailed ==> (r matches Err(e) && e is Exchange),
{
    let ts = current_unix_timestamp();
    let now: u64 = if ts < 0 {
        0
    } else {
        ts as u64
    };
    token_from_exchange(outcome, now)
}

} // verus!

