//! The reachability probe's pure halves: checking the endpoint and
//! naming its host before the request, and wording the outcome after
//! it.

use vstd::prelude::*;
use vstd::string::*;

use crate::config::has_url_scheme;
use crate::text::contains_seq;
use crate::text::str_contains;
use crate::text::str_starts_with;

verus! {

/// The host component of the string parsed as an absolute URL, when it
/// parses and has one; a function of the string alone.
pub uninterp spec fn url_host_of(endpoint: Seq<char>) -> Option<Seq<char>>;

/// Relies on `url::Url::parse`: whether a string parses as an absolute
/// URL with a host, and what that host is, depend on the string alone.
#[verifier::external_body]
fn parse_url_host(endpoint: &str) -> (r: Option<String>)
    ensures
        (match r {
            Some(h) => Some(h@),
            None => None::<Seq<char>>,
        }) == url_host_of(endpoint@),
{
    match url::Url::parse(endpoint) {
        Ok(u) => u.host_str().map(|h| h.to_string()),
        Err(_) => None,
    }
}

/// Checks an endpoint before it is probed: it must carry one of the two
/// accepted schemes and must parse as a URL with a host. On success the
/// host is returned, for the probe's messages to name.
pub fn ping_request(endpoint: &str) -> (r: Result<String, String>)
    ensures
        !has_url_scheme(endpoint@) ==> (r matches Err(m) && m@
            == "Endpoint must start with http:// or https://"@),
        has_url_scheme(endpoint@) && url_host_of(endpoint@) is None ==> (r matches Err(m) && m@
            == "Could not extract host from URL"@),
        (has_url_scheme(endpoint@) && url_host_of(endpoint@) is Some) ==> (r matches Ok(host)
            && Some(host@) == url_host_of(endpoint@)),
{
    if !str_starts_with(endpoint, "http://") && !str_starts_with(endpoint, "https://") {
        return Err(String::from_str("Endpoint must start with http:// or https://"));
    }
    match parse_url_host(endpoint) {
        Some(h) => Ok(h),
        None => Err(String::from_str("Could not extract host from URL")),
    }
}

/// The sentence a failed probe reports: a timeout and a refused
/// connection name the host, a name-resolution hint in the transport's
/// message is called out, and anything else carries the transport's
/// message itself.
pub open spec fn spec_ping_failure_message(
    is_timeout: bool,
    is_connect: bool,
    detail: Seq<char>,
    host: Seq<char>,
) -> Seq<char> {
    if is_timeout {
        "Connection timeout to "@ + host
    } else if is_connect {
        "Connection refused by "@ + host
    } else if contains_seq(detail, "dns"@) {
        "DNS resolution failed for "@ + host
    } else {
        "Network error: "@ + detail
    }
}

/// Words a failed probe, from what the transport reported: whether it
/// timed out, whether the connection was refused, and its message.
pub fn ping_failure_message(is_timeout: bool, is_connect: bool, detail: &str, host: &str) -> (m:
    String)
    ensures
        m@ == spec_ping_failure_message(is_timeout, is_connect, detail@, host@),
{
    if is_timeout {
        String::from_str("Connection timeout to ").concat(host)
    } else if is_connect {
        String::from_str("Connection refused by ").concat(host)
    } else if str_contains(detail, "dns") {
        String::from_str("DNS resolution failed for ").concat(host)
    } else {
        String::from_str("Network error: ").concat(detail)
    }
}

} // verus!
