use bucketviewer::errors::classify_provider_error;
use bucketviewer::errors::ProviderFailure;
use bucketviewer::errors::S3Error;

fn failure(debug_repr: &str, message: &str) -> ProviderFailure {
    ProviderFailure { debug_repr: debug_repr.to_string(), message: message.to_string() }
}

#[test]
fn invalid_access_key_id_maps_to_invalid_credentials() {
    let e = classify_provider_error(&failure(
        "ServiceError { code: \"InvalidAccessKeyId\" }",
        "service error",
    ));
    assert_eq!(e, S3Error::InvalidCredentials);
}

#[test]
fn invalid_access_key_id_maps_the_same_for_any_operation() {
    // The same code in the debug text of two different operations'
    // failures classifies identically: classification sees only the text.
    let from_listing = classify_provider_error(&failure(
        "SdkError during ListObjectsV2: InvalidAccessKeyId",
        "dispatch failure",
    ));
    let from_delete = classify_provider_error(&failure(
        "SdkError during DeleteObject: InvalidAccessKeyId",
        "service error",
    ));
    assert_eq!(from_listing, S3Error::InvalidCredentials);
    assert_eq!(from_delete, S3Error::InvalidCredentials);
}

#[test]
fn signature_mismatch_maps_to_invalid_credentials() {
    let e = classify_provider_error(&failure("SignatureDoesNotMatch", "service error"));
    assert_eq!(e, S3Error::InvalidCredentials);
}

#[test]
fn access_denied_maps_to_permission_denied() {
    let e = classify_provider_error(&failure("AccessDenied", "service error"));
    assert_eq!(e, S3Error::PermissionDenied);
}

#[test]
fn credentials_take_priority_over_permission() {
    // Both codes present: the credential row is checked first.
    let e = classify_provider_error(&failure("InvalidAccessKeyId AccessDenied", "service error"));
    assert_eq!(e, S3Error::InvalidCredentials);
}

#[test]
fn no_such_bucket_maps_to_bucket_not_found() {
    let e = classify_provider_error(&failure("NoSuchBucket", "service error"));
    assert_eq!(e, S3Error::BucketNotFound);
}

#[test]
fn no_such_key_maps_to_object_not_found() {
    let e = classify_provider_error(&failure("NoSuchKey", "service error"));
    assert_eq!(e, S3Error::ObjectNotFound);
}

#[test]
fn timeout_maps_to_network_error_and_keeps_message() {
    let e = classify_provider_error(&failure("DispatchFailure", "request timeout after 10s"));
    assert_eq!(e, S3Error::NetworkError("request timeout after 10s".to_string()));
}

#[test]
fn dns_hint_maps_to_network_error() {
    let e = classify_provider_error(&failure("DispatchFailure", "dns error: failed to resolve"));
    assert!(matches!(e, S3Error::NetworkError(_)));
}

#[test]
fn tls_hint_maps_to_network_error() {
    let e = classify_provider_error(&failure("DispatchFailure", "TLS handshake failed"));
    assert!(matches!(e, S3Error::NetworkError(_)));
}

#[test]
fn invalid_uri_maps_to_configuration_error() {
    let e = classify_provider_error(&failure("ConstructionFailure", "Invalid URI: no scheme"));
    assert_eq!(e, S3Error::ConfigurationError("Invalid URI: no scheme".to_string()));
}

#[test]
fn unrecognized_failure_becomes_unknown_and_keeps_message() {
    let e = classify_provider_error(&failure("SomethingNew", "entirely novel failure"));
    assert_eq!(e, S3Error::UnknownError("entirely novel failure".to_string()));
}

#[test]
fn messages_name_the_kind_and_keep_the_detail() {
    assert_eq!(S3Error::InvalidCredentials.message(), "Invalid AWS credentials");
    assert_eq!(S3Error::BucketNotFound.message(), "Bucket not found");
    assert_eq!(S3Error::ObjectNotFound.message(), "Object not found");
    assert_eq!(S3Error::PermissionDenied.message(), "Permission denied");
    assert_eq!(
        S3Error::NetworkError("timed out".to_string()).message(),
        "Network error: timed out"
    );
    assert_eq!(
        S3Error::ConfigurationError("bad endpoint".to_string()).message(),
        "Configuration error: bad endpoint"
    );
    assert_eq!(
        S3Error::UnknownError("mystery".to_string()).message(),
        "Unknown error: mystery"
    );
}
