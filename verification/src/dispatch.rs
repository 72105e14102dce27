//! The uniform dispatch contract every generated operation follows, factored
//! into one parameterized routine pair instead of being replicated per call
//! site: build a request plan (URL from the base path, the API version always
//! first in the query string, the body, the token directive), then interpret
//! the response by branching exclusively on the numeric status code against
//! the operation's declared table of expected codes. Each call is a single
//! linear traversal — plan, send, interpret — with no retry loop in this
//! layer.

use vstd::prelude::*;

use crate::credential::ClientSecretCredential;
use crate::errors::OperationError;

verus! {

/// The HTTP method of an operation.
#[derive(Clone, Copy, Debug, PartialEq, Eq, Structural)]
pub enum Method {
    Get,
    Post,
    Put,
    Patch,
    Delete,
}

/// The body of an outbound request. A logically empty body is sent with an
/// explicit zero content length rather than omitted, since some backends
/// require it; `None` omits the body entirely.
#[derive(Clone, Debug, PartialEq, Eq)]
pub enum RequestBody {
    /// No body at all.
    NoBody,
    /// An empty body with an explicit zero content length.
    Empty,
    /// A JSON body, already serialized.
    Json(Vec<u8>),
}

/// Two request bodies carry the same bytes (or the same absence of them).
pub open spec fn body_eq(a: RequestBody, b: RequestBody) -> bool {
    match (a, b) {
        (RequestBody::NoBody, RequestBody::NoBody) => true,
        (RequestBody::Empty, RequestBody::Empty) => true,
        (RequestBody::Json(x), RequestBody::Json(y)) => x@ == y@,
        _ => false,
    }
}

/// Everything a transport needs to send one operation's request: method, full
/// URL, query parameters in their exact order, body, and — when a credential
/// is configured — the audience string a bearer token must be acquired for
/// before the request may be sent.
#[derive(Clone, Debug)]
pub struct RequestPlan {
    /// The HTTP method.
    pub method: Method,
    /// The full request URL before query parameters.
    pub url: String,
    /// Query parameters in order; the API version always comes first.
    pub query: Vec<(String, String)>,
    /// The request body.
    pub body: RequestBody,
    /// `Some(resource)` exactly when a credential is configured: a token
    /// scoped to `resource` must be acquired and attached as a bearer
    /// credential, and the request must never be sent without it.
    pub token_resource: Option<String>,
}

/// The default management endpoint every operation URL starts with.
pub const DEFAULT_BASE_PATH: &'static str = "https://management.azure.com";

/// The default audience tokens are requested for: the management endpoint
/// with a trailing slash.
pub const DEFAULT_TOKEN_CREDENTIAL_RESOURCE: &'static str = "https://management.azure.com/";

/// The configuration shared by every operation of one service client: the API
/// version appended to every request, the management endpoint base path, and
/// the optional credential with the audience tokens are requested for.
#[derive(Clone)]
pub struct OperationConfig {
    /// The service's API version, sent as the first query parameter.
    pub api_version: String,
    /// The base path every operation URL starts with.
    pub base_path: String,
    /// The credential used to acquire bearer tokens, if any.
    pub token_credential: Option<ClientSecretCredential>,
    /// The audience string passed to the credential provider.
    pub token_credential_resource: String,
}

impl OperationConfig {
    /// A configuration with the given credential and API version and the
    /// default management base path and audience.
    pub fn new(token_credential: ClientSecretCredential, api_version: String) -> (r: Self)
        ensures
            r.api_version@ == api_version@,
            r.base_path@ == DEFAULT_BASE_PATH@,
            r.token_credential matches Some(c) && c == token_credential,
            r.token_credential_resource@ == DEFAULT_TOKEN_CREDENTIAL_RESOURCE@,
    {
        OperationConfig {
            api_version,
            base_path: DEFAULT_BASE_PATH.to_owned(),
            token_credential: Some(token_credential),
            token_credential_resource: DEFAULT_TOKEN_CREDENTIAL_RESOURCE.to_owned(),
        }
    }

    /// A configuration without a credential: requests are sent anonymously.
    pub fn new_anonymous(api_version: String) -> (r: Self)
        ensures
            r.api_version@ == api_version@,
            r.base_path@ == DEFAULT_BASE_PATH@,
            r.token_credential is None,
            r.token_credential_resource@ == DEFAULT_TOKEN_CREDENTIAL_RESOURCE@,
    {
        OperationConfig {
            api_version,
            base_path: DEFAULT_BASE_PATH.to_owned(),
            token_credential: None,
            token_credential_resource: DEFAULT_TOKEN_CREDENTIAL_RESOURCE.to_owned(),
        }
    }
}

/// How the body of an expected status code is interpreted.
#[derive(Clone, Copy, Debug, PartialEq, Eq, Structural)]
pub enum PayloadKind {
    /// The body is the operation's decoded payload for this code.
    Json,
    /// The code is a pure status signal; the body is ignored.
    Bodyless,
}

/// One row of an operation's declared status table.
#[derive(Clone, Copy, Debug, PartialEq, Eq, Structural)]
pub struct StatusRule {
    /// The expected status code.
    pub code: u16,
    /// How a body under this code is treated.
    pub kind: PayloadKind,
}

/// The first declared rule for a status code, if any.
pub open spec fn spec_lookup(rules: Seq<StatusRule>, status: u16) -> Option<PayloadKind>
    decreases rules.len(),
{
    if rules.len() == 0 {
        None
    } else if rules[0].code == status {
        Some(rules[0].kind)
    } else {
        spec_lookup(rules.drop_first(), status)
    }
}

/// Whether a byte string is well-formed JSON.
pub uninterp spec fn json_ok(b: Seq<u8>) -> bool;

/// Relies on serde_json::from_slice for the generic JSON document type, which
/// succeeds exactly on well-formed JSON text; acceptance is a function of the
/// bytes alone.
#[verifier::external_body]
pub fn json_parses(b: &Vec<u8>) -> (r: bool)
    ensures
        r == json_ok(b@),
{
    serde_json::from_slice::<serde_json::Value>(b).is_ok()
}

/// A success outcome: the status code that produced it — always retained,
/// since distinct success codes carry caller-visible meaning even over one
/// payload shape — and the validated payload bytes, absent for a bodyless
/// code.
#[derive(Clone, Debug, PartialEq, Eq)]
pub struct SuccessOutcome {
    /// The declared success code that was observed.
    pub code: u16,
    /// The payload bytes (well-formed JSON), or none for a bodyless code.
    pub payload: Option<Vec<u8>>,
}

/// Builds the request plan for one operation: the URL is the configured base
/// path followed by the operation's path, the API version is always the first
/// query parameter with the operation's own parameters after it in their
/// given order, and the token directive names the configured audience exactly
/// when a credential is configured.
pub fn build_request(
    config: &OperationConfig,
    method: Method,
    path: String,
    extra_query: Vec<(String, String)>,
    body: RequestBody,
) -> (r: RequestPlan)
    ensures
        r.method == method,
        r.url@ == config.base_path@ + path@,
        r.query@.len() == 1 + extra_query@.len(),
        r.query@[0].0@ == "api-version"@,
        r.query@[0].1@ == config.api_version@,
        forall|i: int| 0 <= i < extra_query@.len() ==> r.query@[i + 1] == extra_query@[i],
        body_eq(r.body, body),
        config.token_credential is Some <==> r.token_resource is Some,
        r.token_resource matches Some(res) ==> res@ == config.token_credential_resource@,
{
    let mut url = config.base_path.clone();
    url.append(path.as_str());
    let mut query: Vec<(String, String)> = Vec::new();
    query.push(("api-version".to_owned(), config.api_version.clone()));
    let mut i: usize = 0;
    let extra_len = extra_query.len();
    while i < extra_len
        invariant
            0 <= i <= extra_len,
            extra_len == extra_query@.len(),
            query@.len() == 1 + i,
            query@[0].0@ == "api-version"@,
            query@[0].1@ == config.api_version@,
            forall|j: int| 0 <= j < i ==> query@[j + 1] == extra_query@[j],
        decreases extra_len - i,
    {
        let pair = (extra_query[i].0.clone(), extra_query[i].1.clone());
        proof {
            let (a, b) = extra_query@[i as int];
            assert(pair.0@ == a@ && pair.1@ == b@);
        }
        query.push(pair);
        i += 1;
    }
    let token_resource = match &config.token_credential {
        Some(_) => Some(config.token_credential_resource.clone()),
        None => None,
    };
    RequestPlan { method, url, query, body, token_resource }
}

/// How a status code outside the declared table is surfaced. Some operations
/// interpret every non-success status through a single provider-wide error
/// envelope instead of the raw-body fallback; that is an intentional
/// per-operation setting, never automatic.
#[derive(Clone, Copy, Debug, PartialEq, Eq, Structural)]
pub enum UnexpectedPolicy {
    /// Carry the code and the raw body verbatim, with no attempt at meaning.
    RawBody,
    /// Decode the body as the provider-wide structured error envelope; a body
    /// that is not well-formed JSON is a decode failure retaining the raw
    /// bytes, as for any expected schema.
    ErrorEnvelope,
}

/// The interpretation verdict, as mathematics: what the dispatcher's
/// discipline prescribes for a status code and body under a declared table.
pub enum InterpretModel {
    /// A declared success code, with the payload bytes a JSON code carries.
    Success { code: u16, payload: Option<Seq<u8>> },
    /// A declared JSON code whose body is not well-formed JSON.
    Malformed { body: Seq<u8> },
    /// A status code outside the declared table, with the raw body.
    Unexpected { status: u16, body: Seq<u8> },
    /// A status code outside the declared table, read as the provider-wide
    /// error envelope.
    Envelope { status: u16, body: Seq<u8> },
}

/// The dispatch discipline: branch exclusively on the numeric status code
/// against the declared table. A declared JSON code yields its body as the
/// payload when the body is well-formed JSON and the decode failure (with
/// those exact bytes) otherwise; a declared bodyless code yields a success
/// with no payload; an undeclared code yields the unexpected-status failure
/// with the code and the raw body verbatim or — under the envelope policy —
/// the provider-described error, with a body that fails that decode kept as
/// a decode failure with the exact bytes.
pub open spec fn spec_interpret(
    rules: Seq<StatusRule>,
    status: u16,
    body: Seq<u8>,
    policy: UnexpectedPolicy,
) -> InterpretModel {
    match spec_lookup(rules, status) {
        None => {
            match policy {
                UnexpectedPolicy::RawBody => InterpretModel::Unexpected { status, body },
                UnexpectedPolicy::ErrorEnvelope => {
                    if json_ok(body) {
                        InterpretModel::Envelope { status, body }
                    } else {
                        InterpretModel::Malformed { body }
                    }
                },
            }
        },
        Some(PayloadKind::Json) => if json_ok(body) {
            InterpretModel::Success { code: status, payload: Some(body) }
        } else {
            InterpretModel::Malformed { body }
        },
        Some(PayloadKind::Bodyless) => InterpretModel::Success { code: status, payload: None },
    }
}

/// An interpretation result agrees with the model's verdict, byte for byte.
pub open spec fn models_interpretation(
    r: Result<SuccessOutcome, OperationError>,
    m: InterpretModel,
) -> bool {
    match m {
        InterpretModel::Success { code, payload } => {
            &&& r matches Ok(s)
            &&& r matches Ok(s) ==> s.code == code && match (s.payload, payload) {
                (Some(p), Some(q)) => p@ == q,
                (None, None) => true,
                _ => false,
            }
        },
        InterpretModel::Malformed { body } => {
            &&& r matches Err(e)
            &&& r matches Err(e) ==> (e matches OperationError::DeserializeError { body: b }
                && b@ == body)
        },
        InterpretModel::Unexpected { status, body } => {
            &&& r matches Err(e)
            &&& r matches Err(e) ==> (e matches OperationError::UnexpectedResponse {
                status_code,
                body: b,
            } && status_code == status && b@ == body)
        },
        InterpretModel::Envelope { status, body } => {
            &&& r matches Err(e)
            &&& r matches Err(e) ==> (e matches OperationError::DefaultErrorResponse {
                status_code,
                body: b,
            } && status_code == status && b@ == body)
        },
    }
}

/// Interprets a response against an operation's declared status table under
/// the raw-body fallback, the common per-operation setting. The result is
/// exactly what `spec_interpret` prescribes for the observed status code and
/// body.
pub fn interpret_response(rules: &Vec<StatusRule>, status: u16, body: Vec<u8>) -> (r: Result<
    SuccessOutcome,
    OperationError,
>)
    ensures
        models_interpretation(
            r,
            spec_interpret(rules@, status, body@, UnexpectedPolicy::RawBody),
        ),
{
    interpret_response_with(rules, status, body, UnexpectedPolicy::RawBody)
}

/// Interprets a response against an operation's declared status table under
/// the operation's configured fallback for undeclared status codes. The
/// result is exactly what `spec_interpret` prescribes for the observed status
/// code and body.
pub fn interpret_response_with(
    rules: &Vec<StatusRule>,
    status: u16,
    body: Vec<u8>,
    policy: UnexpectedPolicy,
) -> (r: Result<SuccessOutcome, OperationError>)
    ensures
        models_interpretation(r, spec_interpret(rules@, status, body@, policy)),
{
    let n = rules.len();
    let mut i: usize = 0;
    proof {
        assert(rules@.skip(0) =~= rules@);
    }
    while i < n
        invariant
            0 <= i <= n,
            n == rules@.len(),
            spec_lookup(rules@, status) == spec_lookup(rules@.skip(i as int), status),
            forall|j: int| 0 <= j < i ==> rules@[j].code != status,
        decreases n - i,
    {
        proof {
            assert(rules@.skip(i as int).drop_first() =~= rules@.skip(i + 1));
        }
        if rules[i].code == status {
            match rules[i].kind {
                PayloadKind::Json => {
                    if json_parses(&body) {
                        return Ok(SuccessOutcome { code: status, payload: Some(body) });
                    } else {
                        return Err(OperationError::DeserializeError { body });
                    }
                },
                PayloadKind::Bodyless => {
                    return Ok(SuccessOutcome { code: status, payload: None });
                },
            }
        }
        i += 1;
    }
    match policy {
        UnexpectedPolicy::RawBody => Err(
            OperationError::UnexpectedResponse { status_code: status, body },
        ),
        UnexpectedPolicy::ErrorEnvelope => {
            if json_parses(&body) {
                Err(OperationError::DefaultErrorResponse { status_code: status, body })
            } else {
                Err(OperationError::DeserializeError { body })
            }
        },
    }
}

/// Law: a declared bodyless success code yields a success outcome with no
/// payload for every body whatsoever — the dispatcher never reads meaning into
/// the body of a pure status signal.
pub proof fn lemma_bodyless_ignores_body(
    rules: Seq<StatusRule>,
    status: u16,
    body: Seq<u8>,
    policy: UnexpectedPolicy,
)
    requires
        spec_lookup(rules, status) == Some(PayloadKind::Bodyless),
    ensures
        spec_interpret(rules, status, body, policy) == (InterpretModel::Success {
            code: status,
            payload: None::<Seq<u8>>,
        }),
{
}

/// Law: a well-formed JSON body echoed back under a declared JSON success code
/// comes out of the dispatcher as exactly the payload bytes that were sent, so
/// any value a codec serialized into the request body decodes back, via the
/// response path, to a value equal to the original.
pub proof fn lemma_echoed_body_survives(
    rules: Seq<StatusRule>,
    status: u16,
    body: Seq<u8>,
    policy: UnexpectedPolicy,
)
    requires
        spec_lookup(rules, status) == Some(PayloadKind::Json),
        json_ok(body),
    ensures
        spec_interpret(rules, status, body, policy) == (InterpretModel::Success {
            code: status,
            payload: Some(body),
        }),
{
}

/// A query string that carries only the API version.
pub open spec fn version_only_query(q: Seq<(String, String)>, api_version: Seq<char>) -> bool {
    q.len() == 1 && q[0].0@ == "api-version"@ && q[0].1@ == api_version
}

/// The plan's token directive matches the configuration: an audience is named
/// exactly when a credential is configured, and it is the configured one.
pub open spec fn token_directive_of(r: RequestPlan, config: OperationConfig) -> bool {
    &&& config.token_credential is Some <==> r.token_resource is Some
    &&& r.token_resource matches Some(res) ==> res@ == config.token_credential_resource@
}

/// The parts of a plan every operation shares: the method, the URL directly
/// under the configured base path, and the token directive.
pub open spec fn standard_plan(
    r: RequestPlan,
    config: OperationConfig,
    method: Method,
    path: Seq<char>,
) -> bool {
    &&& r.method == method
    &&& r.url@ == config.base_path@ + path
    &&& token_directive_of(r, config)
}

/// Evaluates the table lookup for a one-row table.
pub proof fn lemma_lookup1(r1: StatusRule, status: u16)
    ensures
        spec_lookup(seq![r1], status) == (if r1.code == status {
            Some(r1.kind)
        } else {
            None::<PayloadKind>
        }),
{
    reveal_with_fuel(spec_lookup, 2);
    assert(seq![r1].drop_first() =~= Seq::<StatusRule>::empty());
}

/// Evaluates the table lookup for a two-row table.
pub proof fn lemma_lookup2(r1: StatusRule, r2: StatusRule, status: u16)
    ensures
        spec_lookup(seq![r1, r2], status) == (if r1.code == status {
            Some(r1.kind)
        } else if r2.code == status {
            Some(r2.kind)
        } else {
            None::<PayloadKind>
        }),
{
    lemma_lookup1(r2, status);
    assert(seq![r1, r2].drop_first() =~= seq![r2]);
}

/// Evaluates the table lookup for a three-row table.
pub proof fn lemma_lookup3(r1: StatusRule, r2: StatusRule, r3: StatusRule, status: u16)
    ensures
        spec_lookup(seq![r1, r2, r3], status) == (if r1.code == status {
            Some(r1.kind)
        } else if r2.code == status {
            Some(r2.kind)
        } else if r3.code == status {
            Some(r3.kind)
        } else {
            None::<PayloadKind>
        }),
{
    lemma_lookup2(r2, r3, status);
    assert(seq![r1, r2, r3].drop_first() =~= seq![r2, r3]);
}

} // verus!

