//! The closed error taxonomy and the single place where provider
//! failures are classified into it.
//!
//! Every failure that comes back from the provider is reduced to two
//! strings — its debug representation (which carries structured error
//! codes) and its display message — and classified by one fixed table,
//! structured codes first, free-text transport hints second. The table
//! is total: anything unrecognized becomes `UnknownError` and keeps the
//! original message.

use vstd::prelude::*;
use vstd::string::*;

use crate::text::contains_seq;
use crate::text::str_contains;

verus! {

/// Client-visible failure kinds: the only error type operations return.
#[derive(Debug, Clone, PartialEq, Eq)]
pub enum S3Error {
    InvalidCredentials,
    BucketNotFound,
    ObjectNotFound,
    PermissionDenied,
    NetworkError(String),
    ConfigurationError(String),
    UnknownError(String),
}

/// A provider failure reduced to plain values: the debug representation
/// of the provider's error and its display message.
#[derive(Debug, Clone)]
pub struct ProviderFailure {
    pub debug_repr: String,
    pub message: String,
}

/// The debug representation names a bad access key id or a signature
/// mismatch.
pub open spec fn credential_error_text(debug: Seq<char>) -> bool {
    contains_seq(debug, "InvalidAccessKeyId"@) || contains_seq(debug, "SignatureDoesNotMatch"@)
}

/// The debug representation names an authorization refusal.
pub open spec fn permission_error_text(debug: Seq<char>) -> bool {
    contains_seq(debug, "AccessDenied"@)
}

/// The debug representation names a missing bucket.
pub open spec fn bucket_missing_text(debug: Seq<char>) -> bool {
    contains_seq(debug, "NoSuchBucket"@)
}

/// The debug representation names a missing object key.
pub open spec fn object_missing_text(debug: Seq<char>) -> bool {
    contains_seq(debug, "NoSuchKey"@)
}

/// The display message carries a transport-level hint: a timeout,
/// a refused connection, a name-resolution or TLS failure, or an
/// HTTP-client failure.
pub open spec fn network_error_text(msg: Seq<char>) -> bool {
    ||| contains_seq(msg, "NetworkError"@)
    ||| contains_seq(msg, "timeout"@)
    ||| contains_seq(msg, "connection"@)
    ||| contains_seq(msg, "Connection"@)
    ||| contains_seq(msg, "dns"@)
    ||| contains_seq(msg, "DNS"@)
    ||| contains_seq(msg, "resolve"@)
    ||| contains_seq(msg, "tls"@)
    ||| contains_seq(msg, "TLS"@)
    ||| contains_seq(msg, "ssl"@)
    ||| contains_seq(msg, "SSL"@)
    ||| contains_seq(msg, "hyper"@)
}

/// The display message reports a malformed endpoint URI.
pub open spec fn config_error_text(msg: Seq<char>) -> bool {
    contains_seq(msg, "Invalid URI"@)
}

/// The classification table, rows in priority order: `e` is the taxonomy
/// kind that the first matching row assigns to a failure with the given
/// debug representation and display message. The final row is a
/// catch-all, so exactly one kind is assigned to every failure, and the
/// kinds that carry a detail string keep the original message.
pub open spec fn classifies(debug: Seq<char>, msg: Seq<char>, e: S3Error) -> bool {
    if credential_error_text(debug) {
        e == S3Error::InvalidCredentials
    } else if permission_error_text(debug) {
        e == S3Error::PermissionDenied
    } else if bucket_missing_text(debug) {
        e == S3Error::BucketNotFound
    } else if object_missing_text(debug) {
        e == S3Error::ObjectNotFound
    } else if network_error_text(msg) {
        e matches S3Error::NetworkError(d) && d@ == msg
    } else if config_error_text(msg) {
        e matches S3Error::ConfigurationError(d) && d@ == msg
    } else {
        e matches S3Error::UnknownError(d) && d@ == msg
    }
}

/// Classifies a provider failure into the taxonomy: structured error
/// codes in the debug representation are inspected first, transport
/// hints in the display message second, and anything else is an
/// `UnknownError` that keeps the original message.
pub fn classify_provider_error(failure: &ProviderFailure) -> (e: S3Error)
    ensures
        classifies(failure.debug_repr@, failure.message@, e),
{
    let debug = failure.debug_repr.as_str();
    let msg = failure.message.as_str();
    if str_contains(debug, "InvalidAccessKeyId") || str_contains(debug, "SignatureDoesNotMatch") {
        S3Error::InvalidCredentials
    } else if str_contains(debug, "AccessDenied") {
        S3Error::PermissionDenied
    } else if str_contains(debug, "NoSuchBucket") {
        S3Error::BucketNotFound
    } else if str_contains(debug, "NoSuchKey") {
        S3Error::ObjectNotFound
    } else if str_contains(msg, "NetworkError") || str_contains(msg, "timeout") || str_contains(
        msg,
        "connection",
    ) || str_contains(msg, "Connection") || str_contains(msg, "dns") || str_contains(msg, "DNS")
        || str_contains(msg, "resolve") || str_contains(msg, "tls") || str_contains(msg, "TLS")
        || str_contains(msg, "ssl") || str_contains(msg, "SSL") || str_contains(msg, "hyper") {
        S3Error::NetworkError(failure.message.clone())
    } else if str_contains(msg, "Invalid URI") {
        S3Error::ConfigurationError(failure.message.clone())
    } else {
        S3Error::UnknownError(failure.message.clone())
    }
}

/// The one human-readable sentence each failure kind renders as.
pub open spec fn spec_message(e: S3Error) -> Seq<char> {
    match e {
        S3Error::InvalidCredentials => "Invalid AWS credentials"@,
        S3Error::BucketNotFound => "Bucket not found"@,
        S3Error::ObjectNotFound => "Object not found"@,
        S3Error::PermissionDenied => "Permission denied"@,
        S3Error::NetworkError(d) => "Network error: "@ + d@,
        S3Error::ConfigurationError(d) => "Configuration error: "@ + d@,
        S3Error::UnknownError(d) => "Unknown error: "@ + d@,
    }
}

impl S3Error {
    /// Renders the failure as one human-readable sentence; the kinds
    /// that carry a detail string keep it in the rendering.
    pub fn message(&self) -> (m: String)
        ensures
            m@ == spec_message(*self),
    {
        match self {
            S3Error::InvalidCredentials => String::from_str("Invalid AWS credentials"),
            S3Error::BucketNotFound => String::from_str("Bucket not found"),
            S3Error::ObjectNotFound => String::from_str("Object not found"),
            S3Error::PermissionDenied => String::from_str("Permission denied"),
            S3Error::NetworkError(d) => String::from_str("Network error: ").concat(d.as_str()),
            S3Error::ConfigurationError(d) => String::from_str("Configuration error: ").concat(
                d.as_str(),
            ),
            S3Error::UnknownError(d) => String::from_str("Unknown error: ").concat(d.as_str()),
        }
    }
}

/// Classification assigns exactly one kind: any two outcomes the table
/// admits for one failure have the same kind and render as the same
/// sentence. Together with `classify_provider_error`'s contract, every
/// failure is classified, and classified one way only.
pub proof fn lemma_classification_deterministic(
    debug: Seq<char>,
    msg: Seq<char>,
    e1: S3Error,
    e2: S3Error,
)
    requires
        classifies(debug, msg, e1),
        classifies(debug, msg, e2),
    ensures
        spec_message(e1) == spec_message(e2),
{
}

/// A provider failure whose debug representation holds the bad-key-id
/// code is classified as invalid credentials, whatever operation
/// produced it: classification looks at the failure text alone.
pub proof fn lemma_invalid_access_key_id_classification(debug: Seq<char>, msg: Seq<char>, e: S3Error)
    requires
        contains_seq(debug, "InvalidAccessKeyId"@),
        classifies(debug, msg, e),
    ensures
        e == S3Error::InvalidCredentials,
{
}

} // verus!
