use vstd::prelude::*;

use crate::text::{decimal, push_decimal, trim_end_char, trim_end_matches_char};

verus! {

/// delightd's control port on this host, used when no override is configured.
pub const DEFAULT_DELIGHTD_URL: &'static str = "http://127.0.0.1:8088";

/// Where delightd says a service answers: its registry name, a URL scheme and
/// a `host:port` address.
#[derive(Debug, Clone, PartialEq, Eq, Default)]
pub struct ResolvedService {
    pub name: String,
    pub scheme: String,
    pub address: String,
}

/// What `format!("{:?}", s)` renders for a string `s`: std's `Debug` text of a
/// string, a quoted literal with escapes.
pub uninterp spec fn debug_text(s: Seq<char>) -> Seq<char>;

/// Calls std's `Debug` for `str` (through `format!("{:?}", ..)`). The contract
/// only names the result: the escaping rules are std's and are not restated.
#[verifier::external_body]
fn debug_quote(s: &str) -> (r: String)
    ensures
        r@ == debug_text(s@),
{
    format!("{:?}", s)
}

/// The `GET /resolve/{name}` URL on delightd for `service`; trailing slashes
/// of the base are dropped.
pub open spec fn spec_resolve_url(delightd_base: Seq<char>, service: Seq<char>) -> Seq<char> {
    trim_end_char(delightd_base, '/') + "/resolve/"@ + service
}

/// Builds the URL that asks delightd where `service` answers.
pub fn resolve_url(delightd_base: &str, service: &str) -> (url: String)
    ensures
        url@ == spec_resolve_url(delightd_base@, service@),
{
    let mut url = trim_end_matches_char(delightd_base, '/');
    url.append("/resolve/");
    url.append(service);
    url
}

/// The `/state` URL of a resolved service, or why it cannot be polled.
pub open spec fn spec_state_url_from(r: ResolvedService) -> Result<Seq<char>, Seq<char>> {
    if r.scheme@.len() == 0 || r.address@.len() == 0 {
        Err(
            "delightd resolved "@ + debug_text(r.name@) + " to an incomplete endpoint (scheme="@
                + debug_text(r.scheme@) + ", address="@ + debug_text(r.address@) + ")"@,
        )
    } else {
        Ok(r.scheme@ + "://"@ + r.address@ + "/state"@)
    }
}

/// Builds the aggregator's `/state` URL from a resolved service. An empty
/// scheme or address is an error rather than a malformed URL.
pub fn state_url_from(resolved: &ResolvedService) -> (r: Result<String, String>)
    ensures
        match r {
            Ok(url) => spec_state_url_from(*resolved) == Ok::<Seq<char>, Seq<char>>(url@),
            Err(e) => spec_state_url_from(*resolved) == Err::<Seq<char>, Seq<char>>(e@),
        },
{
    if resolved.scheme.as_str().unicode_len() == 0 || resolved.address.as_str().unicode_len() == 0 {
        let mut e = String::from_str("delightd resolved ");
        let name = debug_quote(resolved.name.as_str());
        e.append(name.as_str());
        e.append(" to an incomplete endpoint (scheme=");
        let scheme = debug_quote(resolved.scheme.as_str());
        e.append(scheme.as_str());
        e.append(", address=");
        let address = debug_quote(resolved.address.as_str());
        e.append(address.as_str());
        e.append(")");
        return Err(e);
    }
    let mut url = resolved.scheme.clone();
    url.append("://");
    url.append(resolved.address.as_str());
    url.append("/state");
    Ok(url)
}

/// Why delightd did not answer where a service is.
#[derive(Debug, Clone, PartialEq, Eq)]
pub enum ResolveFailure {
    /// delightd answered with a non-success HTTP status.
    Status(u16),
    /// delightd could not be reached; the transport's explanation.
    Unreachable(String),
    /// The response body could not be read; the reader's explanation.
    Body(String),
    /// The body is not a resolved service; the decoder's explanation.
    Decode(String),
}

/// The error text for a failed resolution of `service`. A 404 means delightd
/// holds no registration for the name, which reads differently from delightd
/// being down.
pub open spec fn spec_resolve_failure_reason(service: Seq<char>, f: ResolveFailure) -> Seq<char> {
    match f {
        ResolveFailure::Status(code) => if code == 404 {
            "delightd holds no registration for "@ + debug_text(service) + " (not resolvable)"@
        } else {
            "delightd /resolve returned HTTP "@ + decimal(code as nat)
        },
        ResolveFailure::Unreachable(e) => "delightd unreachable: "@ + e@,
        ResolveFailure::Body(e) => "read resolve body: "@ + e@,
        ResolveFailure::Decode(e) => "parse resolve.v1.ResolvedService: "@ + e@,
    }
}

/// Describes a failed resolution of `service`.
pub fn resolve_failure_reason(service: &str, f: &ResolveFailure) -> (r: String)
    ensures
        r@ == spec_resolve_failure_reason(service@, *f),
{
    match f {
        ResolveFailure::Status(code) => {
            if *code == 404 {
                let mut out = String::from_str("delightd holds no registration for ");
                let quoted = debug_quote(service);
                out.append(quoted.as_str());
                out.append(" (not resolvable)");
                out
            } else {
                let mut out = String::from_str("delightd /resolve returned HTTP ");
                push_decimal(&mut out, *code as u64);
                out
            }
        },
        ResolveFailure::Unreachable(e) => {
            let mut out = String::from_str("delightd unreachable: ");
            out.append(e.as_str());
            out
        },
        ResolveFailure::Body(e) => {
            let mut out = String::from_str("read resolve body: ");
            out.append(e.as_str());
            out
        },
        ResolveFailure::Decode(e) => {
            let mut out = String::from_str("parse resolve.v1.ResolvedService: ");
            out.append(e.as_str());
            out
        },
    }
}

/// The `/state` URL is produced exactly when both the scheme and the address
/// are non-empty, and it is then `scheme://address/state`; an empty scheme or
/// an empty address, either one alone, is an error.
pub proof fn lemma_state_url_needs_complete_endpoint(r: ResolvedService)
    ensures
        spec_state_url_from(r) is Ok <==> (r.scheme@.len() > 0 && r.address@.len() > 0),
        r.scheme@.len() == 0 ==> spec_state_url_from(r) is Err,
        r.address@.len() == 0 ==> spec_state_url_from(r) is Err,
        spec_state_url_from(r) is Ok ==> spec_state_url_from(r)->Ok_0 == r.scheme@ + "://"@
            + r.address@ + "/state"@,
{
}

} // verus!
