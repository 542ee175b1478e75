//! Client configuration and its validation.
//!
//! A configuration is validated once, before any client is built from
//! it; validation is pure — no network traffic is involved — and every
//! rejected field is reported as a `ConfigurationError` with a fixed
//! message.

use vstd::prelude::*;
use vstd::string::*;

use crate::errors::S3Error;
use crate::settings::ConnectionConfig;
use crate::text::contains_seq;
use crate::text::is_blank;
use crate::text::starts_with_seq;
use crate::text::str_contains;
use crate::text::str_is_blank;
use crate::text::str_starts_with;

verus! {

/// An immutable description of one provider connection: endpoint,
/// credentials, region (empty means "use the provider default"), and an
/// optional default bucket.
#[derive(Debug)]
pub struct S3Config {
    pub endpoint: String,
    pub access_key: String,
    pub secret_key: String,
    pub region: String,
    pub bucket: Option<String>,
}

/// The mathematical value of a configuration.
pub struct ConfigFields {
    pub endpoint: Seq<char>,
    pub access_key: Seq<char>,
    pub secret_key: Seq<char>,
    pub region: Seq<char>,
    pub bucket: Option<Seq<char>>,
}

impl View for S3Config {
    type V = ConfigFields;

    open spec fn view(&self) -> ConfigFields {
        ConfigFields {
            endpoint: self.endpoint@,
            access_key: self.access_key@,
            secret_key: self.secret_key@,
            region: self.region@,
            bucket: self.bucket.deep_view(),
        }
    }
}

impl Clone for S3Config {
    /// Clones the configuration; the copy carries the same value.
    fn clone(&self) -> (r: Self)
        ensures
            r == *self,
    {
        S3Config {
            endpoint: self.endpoint.clone(),
            access_key: self.access_key.clone(),
            secret_key: self.secret_key.clone(),
            region: self.region.clone(),
            bucket: match &self.bucket {
                Some(b) => Some(b.clone()),
                None => None,
            },
        }
    }
}

/// The endpoint declares one of the two accepted URI schemes.
pub open spec fn has_url_scheme(endpoint: Seq<char>) -> bool {
    starts_with_seq(endpoint, "http://"@) || starts_with_seq(endpoint, "https://"@)
}

/// The endpoint names the provider's canonical public domain, for which
/// an explicit region is required.
pub open spec fn canonical_provider_endpoint(endpoint: Seq<char>) -> bool {
    contains_seq(endpoint, "amazonaws.com"@)
}

/// The validation table, rows in the order they are checked: relates a
/// connection payload to the outcome validation owes for it.
pub open spec fn validation_outcome(
    c: crate::settings::ConnectionFields,
    r: Result<S3Config, S3Error>,
) -> bool {
    if is_blank(c.access_key) {
        r matches Err(S3Error::ConfigurationError(m)) && m@ == "Access Key cannot be empty"@
    } else if is_blank(c.secret_key) {
        r matches Err(S3Error::ConfigurationError(m)) && m@ == "Secret Key cannot be empty"@
    } else if is_blank(c.endpoint) {
        r matches Err(S3Error::ConfigurationError(m)) && m@ == "Endpoint URL cannot be empty"@
    } else if !has_url_scheme(c.endpoint) {
        r matches Err(S3Error::ConfigurationError(m)) && m@
            == "Endpoint URL must start with http:// or https://"@
    } else if canonical_provider_endpoint(c.endpoint) && is_blank(c.region) {
        r matches Err(S3Error::ConfigurationError(m)) && m@
            == "AWS S3 requires a region to be specified"@
    } else {
        r matches Ok(cfg) && cfg@ == (ConfigFields {
            endpoint: c.endpoint,
            access_key: c.access_key,
            secret_key: c.secret_key,
            region: c.region,
            bucket: None,
        })
    }
}

impl S3Config {
    /// Validates a connection payload and builds the configuration an
    /// operation may run with. Pure: no network call is attempted. A
    /// blank credential or endpoint, an endpoint without an `http://`
    /// or `https://` scheme, and a canonical provider endpoint paired
    /// with an empty region are each rejected with a
    /// `ConfigurationError`.
    pub fn validate(connection: &ConnectionConfig) -> (r: Result<S3Config, S3Error>)
        ensures
            validation_outcome(connection@, r),
    {
        if str_is_blank(connection.access_key.as_str()) {
            return Err(S3Error::ConfigurationError(String::from_str("Access Key cannot be empty")));
        }
        if str_is_blank(connection.secret_key.as_str()) {
            return Err(S3Error::ConfigurationError(String::from_str("Secret Key cannot be empty")));
        }
        if str_is_blank(connection.endpoint.as_str()) {
            return Err(
                S3Error::ConfigurationError(String::from_str("Endpoint URL cannot be empty")),
            );
        }
        if !str_starts_with(connection.endpoint.as_str(), "http://") && !str_starts_with(
            connection.endpoint.as_str(),
            "https://",
        ) {
            return Err(
                S3Error::ConfigurationError(
                    String::from_str("Endpoint URL must start with http:// or https://"),
                ),
            );
        }
        if str_contains(connection.endpoint.as_str(), "amazonaws.com") && str_is_blank(
            connection.region.as_str(),
        ) {
            return Err(
                S3Error::ConfigurationError(
                    String::from_str("AWS S3 requires a region to be specified"),
                ),
            );
        }
        Ok(
            S3Config {
                endpoint: connection.endpoint.clone(),
                access_key: connection.access_key.clone(),
                secret_key: connection.secret_key.clone(),
                region: connection.region.clone(),
                bucket: None,
            },
        )
    }
}

/// Validation succeeds for every payload whose access key, secret key
/// and endpoint are not blank, whose endpoint carries a scheme, and
/// which does not pair a canonical provider endpoint with an empty
/// region; and it fails with a `ConfigurationError` whenever one of the
/// three fields is blank.
pub proof fn lemma_validation_decides(
    c: crate::settings::ConnectionFields,
    r: Result<S3Config, S3Error>,
)
    requires
        validation_outcome(c, r),
    ensures
        !is_blank(c.access_key) && !is_blank(c.secret_key) && !is_blank(c.endpoint)
            && has_url_scheme(c.endpoint) && !(canonical_provider_endpoint(c.endpoint) && is_blank(
            c.region,
        )) ==> r is Ok,
        is_blank(c.access_key) || is_blank(c.secret_key) || is_blank(c.endpoint) ==> (r matches Err(
            e,
        ) && e is ConfigurationError),
{
}

} // verus!
