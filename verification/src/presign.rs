//! Presigned-URL generation: the pure, local half of the operation.
//!
//! Generating a presigned URL never talks to the provider; what can go
//! wrong locally is the expiry. A zero expiry would issue a URL that is
//! dead on arrival, and the provider caps the validity of a signed URL
//! at one week, so both ends are rejected here before any signing
//! happens.

use vstd::prelude::*;
use vstd::string::*;

use crate::errors::S3Error;
use crate::service::S3Service;

verus! {

/// The longest validity the provider accepts for a presigned URL: one
/// week, in seconds.
pub const MAX_PRESIGN_EXPIRY_SECS: u64 = 604800;

#[verifier::external_type_specification]
#[verifier::external_body]
pub struct ExPresigningConfig(aws_sdk_s3::presigning::PresigningConfig);

/// Relies on `aws_sdk_s3::presigning::PresigningConfig::expires_in`:
/// building the signing configuration succeeds exactly when the expiry
/// is at most one week (604800 seconds); its builder rejects anything
/// longer and accepts everything else.
#[verifier::external_body]
fn presigning_config_for(expires_in_secs: u64) -> (r: Option<
    aws_sdk_s3::presigning::PresigningConfig,
>)
    ensures
        r is Some <==> expires_in_secs <= MAX_PRESIGN_EXPIRY_SECS,
{
    aws_sdk_s3::presigning::PresigningConfig::expires_in(
        std::time::Duration::from_secs(expires_in_secs),
    ).ok()
}

/// Everything a presigned request needs besides the connection: the
/// target, the signing configuration, and the expiry it was issued for.
#[derive(Debug)]
pub struct PresignRequest {
    pub bucket: String,
    pub key: String,
    pub content_type: Option<String>,
    pub config: aws_sdk_s3::presigning::PresigningConfig,
    pub expires_in_secs: u64,
}

impl S3Service {
    /// Prepares a presigned download URL for an object. The expiry
    /// must be positive and at most one week; anything else is rejected
    /// as an `UnknownError` rather than signing a URL that could never
    /// be used.
    pub fn generate_presigned_download_url(
        &self,
        bucket: &str,
        key: &str,
        expires_in_secs: u64,
    ) -> (r: Result<PresignRequest, S3Error>)
        ensures
            expires_in_secs == 0 ==> (r matches Err(S3Error::UnknownError(m)) && m@
                == "Presigned URL expiry must be greater than zero"@),
            expires_in_secs > MAX_PRESIGN_EXPIRY_SECS ==> (r matches Err(
                S3Error::UnknownError(m),
            ) && m@ == "Presigned URL expiry must be at most one week"@),
            1 <= expires_in_secs <= MAX_PRESIGN_EXPIRY_SECS ==> (r matches Ok(p) && p.bucket@
                == bucket@ && p.key@ == key@ && p.content_type is None && p.expires_in_secs
                == expires_in_secs),
    {
        if expires_in_secs == 0 {
            return Err(
                S3Error::UnknownError(
                    String::from_str("Presigned URL expiry must be greater than zero"),
                ),
            );
        }
        match presigning_config_for(expires_in_secs) {
            Some(config) => Ok(
                PresignRequest {
                    bucket: String::from_str(bucket),
                    key: String::from_str(key),
                    content_type: None,
                    config,
                    expires_in_secs,
                },
            ),
            None => Err(
                S3Error::UnknownError(
                    String::from_str("Presigned URL expiry must be at most one week"),
                ),
            ),
        }
    }

    /// Prepares a presigned upload URL for an object, optionally pinned
    /// to a content type. The expiry is bounded exactly as for a
    /// download URL.
    pub fn generate_presigned_upload_url(
        &self,
        bucket: &str,
        key: &str,
        expires_in_secs: u64,
        content_type: Option<String>,
    ) -> (r: Result<PresignRequest, S3Error>)
        ensures
            expires_in_secs == 0 ==> (r matches Err(S3Error::UnknownError(m)) && m@
                == "Presigned URL expiry must be greater than zero"@),
            expires_in_secs > MAX_PRESIGN_EXPIRY_SECS ==> (r matches Err(
                S3Error::UnknownError(m),
            ) && m@ == "Presigned URL expiry must be at most one week"@),
            1 <= expires_in_secs <= MAX_PRESIGN_EXPIRY_SECS ==> (r matches Ok(p) && p.bucket@
                == bucket@ && p.key@ == key@ && p.content_type == content_type
                && p.expires_in_secs == expires_in_secs),
    {
        if expires_in_secs == 0 {
            return Err(
                S3Error::UnknownError(
                    String::from_str("Presigned URL expiry must be greater than zero"),
                ),
            );
        }
        match presigning_config_for(expires_in_secs) {
            Some(config) => Ok(
                PresignRequest {
                    bucket: String::from_str(bucket),
                    key: String::from_str(key),
                    content_type,
                    config,
                    expires_in_secs,
                },
            ),
            None => Err(
                S3Error::UnknownError(
                    String::from_str("Presigned URL expiry must be at most one week"),
                ),
            ),
        }
    }
}

} // verus!
