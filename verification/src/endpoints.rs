//! Construction and validation of the identity provider's token and authorize
//! endpoints from untrusted configuration input. An endpoint is the authority
//! host, one path separator, the tenant id as a single path segment, and a
//! fixed suffix; a tenant id that cannot stand as a single path segment, or a
//! combination that does not parse as an absolute URL, is rejected explicitly
//! rather than silently producing a malformed endpoint.

use vstd::prelude::*;

verus! {

/// A character that would end or escape out of a single URL path segment.
pub open spec fn breaks_path_segment(c: char) -> bool {
    c == '/' || c == '\\' || c == '?' || c == '#'
}

/// A tenant id is well formed when it is non-empty and stays within a single
/// path segment of the endpoint URL.
pub open spec fn valid_tenant_segment(t: Seq<char>) -> bool {
    t.len() > 0 && (forall|i: int| 0 <= i < t.len() ==> !breaks_path_segment(t[i]))
}

/// Whether a string parses as an absolute URL.
pub uninterp spec fn url_parse_ok(s: Seq<char>) -> bool;

/// Relies on url::Url::parse, which parses an absolute URL from a string and
/// otherwise reports an error; acceptance is a function of the characters
/// alone.
#[verifier::external_body]
pub fn parses_as_url(s: &str) -> (r: bool)
    ensures
        r == url_parse_ok(s@),
{
    url::Url::parse(s).is_ok()
}

/// The token endpoint for a given authority host and tenant id.
pub open spec fn token_endpoint_of(host: Seq<char>, tenant: Seq<char>) -> Seq<char> {
    host + "/"@ + tenant + "/oauth2/v2.0/token"@
}

/// The authorize endpoint for a given authority host and tenant id.
pub open spec fn authorize_endpoint_of(host: Seq<char>, tenant: Seq<char>) -> Seq<char> {
    host + "/"@ + tenant + "/oauth2/v2.0/authorize"@
}

/// A configuration is well formed exactly when the tenant id is a single path
/// segment and both constructed endpoints parse as absolute URLs.
pub open spec fn well_formed_endpoints(host: Seq<char>, tenant: Seq<char>) -> bool {
    &&& valid_tenant_segment(tenant)
    &&& url_parse_ok(token_endpoint_of(host, tenant))
    &&& url_parse_ok(authorize_endpoint_of(host, tenant))
}

/// Checks that a tenant id stays within a single path segment.
pub fn tenant_is_single_segment(t: &str) -> (r: bool)
    ensures
        r == valid_tenant_segment(t@),
{
    let n = t.unicode_len();
    if n == 0 {
        return false;
    }
    let mut i: usize = 0;
    while i < n
        invariant
            0 <= i <= n,
            n == t@.len(),
            forall|j: int| 0 <= j < i ==> !breaks_path_segment(t@[j]),
        decreases n - i,
    {
        let c = t.get_char(i);
        if c == '/' || c == '\\' || c == '?' || c == '#' {
            return false;
        }
        i += 1;
    }
    true
}

/// Builds the token endpoint string.
pub fn token_endpoint(authority_host: &str, tenant_id: &str) -> (r: String)
    ensures
        r@ == token_endpoint_of(authority_host@, tenant_id@),
{
    let mut s = authority_host.to_owned();
    s.append("/");
    s.append(tenant_id);
    s.append("/oauth2/v2.0/token");
    s
}

/// Builds the authorize endpoint string.
pub fn authorize_endpoint(authority_host: &str, tenant_id: &str) -> (r: String)
    ensures
        r@ == authorize_endpoint_of(authority_host@, tenant_id@),
{
    let mut s = authority_host.to_owned();
    s.append("/");
    s.append(tenant_id);
    s.append("/oauth2/v2.0/authorize");
    s
}

/// Law: for every well-formed (authority host, tenant id) pair, the two
/// constructed endpoints are accepted by the URL parser as absolute URLs and
/// end in the fixed token and authorize suffixes.
pub proof fn lemma_endpoints_well_formed(host: Seq<char>, tenant: Seq<char>)
    requires
        well_formed_endpoints(host, tenant),
    ensures
        url_parse_ok(token_endpoint_of(host, tenant)),
        url_parse_ok(authorize_endpoint_of(host, tenant)),
        "/oauth2/v2.0/token"@.is_suffix_of(token_endpoint_of(host, tenant)),
        "/oauth2/v2.0/authorize"@.is_suffix_of(authorize_endpoint_of(host, tenant)),
{
    let tok = token_endpoint_of(host, tenant);
    let auth = authorize_endpoint_of(host, tenant);
    assert("/oauth2/v2.0/token"@.is_suffix_of(tok)) by {
        let s = "/oauth2/v2.0/token"@;
        assert(tok.subrange(tok.len() - s.len(), tok.len() as int) =~= s);
    }
    assert("/oauth2/v2.0/authorize"@.is_suffix_of(auth)) by {
        let s = "/oauth2/v2.0/authorize"@;
        assert(auth.subrange(auth.len() - s.len(), auth.len() as int) =~= s);
    }
}

/// Law: a tenant id that does not stand as a single path segment never yields
/// well-formed endpoints, for any authority host; preparing a token request
/// from such a configuration therefore reports a configuration error before
/// any exchange request exists that could be sent.
pub proof fn lemma_malformed_tenant_rejected(host: Seq<char>, tenant: Seq<char>)
    requires
        !valid_tenant_segment(tenant),
    ensures
        !well_formed_endpoints(host, tenant),
{
}

} // verus!
