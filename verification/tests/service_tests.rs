use bucketviewer::config::S3Config;
use bucketviewer::errors::ProviderFailure;
use bucketviewer::errors::S3Error;
use bucketviewer::service::RawBucket;
use bucketviewer::service::RawDeleteFailure;
use bucketviewer::service::RawHeadObject;
use bucketviewer::service::RawListing;
use bucketviewer::service::RawObject;
use bucketviewer::service::S3Service;

fn config(endpoint: &str, region: &str) -> S3Config {
    S3Config {
        endpoint: endpoint.to_string(),
        access_key: "key".to_string(),
        secret_key: "secret".to_string(),
        region: region.to_string(),
        bucket: None,
    }
}

fn service() -> S3Service {
    S3Service::new(config("https://minio.local:9000", "")).unwrap()
}

fn transport_failure() -> ProviderFailure {
    ProviderFailure {
        debug_repr: "DispatchFailure".to_string(),
        message: "connection refused".to_string(),
    }
}

#[test]
fn construction_rejects_empty_access_key() {
    let mut c = config("https://minio.local", "");
    c.access_key = String::new();
    assert_eq!(
        S3Service::new(c).unwrap_err(),
        S3Error::ConfigurationError("Access key and secret key cannot be empty".to_string())
    );
}

#[test]
fn construction_rejects_empty_endpoint() {
    let c = config("", "");
    assert_eq!(
        S3Service::new(c).unwrap_err(),
        S3Error::ConfigurationError("Endpoint cannot be empty".to_string())
    );
}

#[test]
fn custom_endpoint_uses_path_style_and_fallback_region() {
    let s = S3Service::new(config("https://minio.local:9000", "")).unwrap();
    assert!(s.use_path_style);
    assert_eq!(s.effective_region, "us-east-1");
}

#[test]
fn canonical_endpoint_uses_virtual_hosted_style_and_keeps_region() {
    let s = S3Service::new(config("https://s3.amazonaws.com", "eu-west-1")).unwrap();
    assert!(!s.use_path_style);
    assert_eq!(s.effective_region, "eu-west-1");
}

#[test]
fn test_connection_reports_success_as_true() {
    let r = service().test_connection(Ok(()));
    assert_eq!(r.unwrap(), true);
}

#[test]
fn test_connection_classifies_failure() {
    let r = service().test_connection(Err(transport_failure()));
    assert!(matches!(r, Err(S3Error::NetworkError(_))));
}

#[test]
fn list_buckets_describes_each_reported_bucket() {
    let raw = vec![
        RawBucket {
            name: Some("alpha".to_string()),
            creation_date: Some("2024-01-01T00:00:00Z".to_string()),
        },
        RawBucket { name: None, creation_date: None },
    ];
    let buckets = service().list_buckets(Ok(raw)).unwrap();
    assert_eq!(buckets.len(), 2);
    assert_eq!(buckets[0].name, "alpha");
    assert_eq!(buckets[0].creation_date.as_deref(), Some("2024-01-01T00:00:00Z"));
    assert!(buckets[0].region.is_none());
    assert_eq!(buckets[1].name, "");
}

#[test]
fn empty_bucket_listing_is_a_valid_result() {
    let buckets = service().list_buckets(Ok(vec![])).unwrap();
    assert!(buckets.is_empty());
}

#[test]
fn listing_request_keeps_absent_and_empty_parameters_apart() {
    let s = service();
    let absent = s.list_objects_request("bucket", None, None, None, None);
    assert!(absent.prefix.is_none());
    assert!(absent.delimiter.is_none());
    assert!(absent.max_keys.is_none());
    assert!(absent.continuation_token.is_none());
    let empty = s.list_objects_request(
        "bucket",
        Some(String::new()),
        Some("/".to_string()),
        Some(100),
        Some("token".to_string()),
    );
    assert_eq!(empty.prefix.as_deref(), Some(""));
    assert_eq!(empty.delimiter.as_deref(), Some("/"));
    assert_eq!(empty.max_keys, Some(100));
    assert_eq!(empty.continuation_token.as_deref(), Some("token"));
    assert_eq!(empty.bucket, "bucket");
}

#[test]
fn listing_page_keeps_one_object_and_one_common_prefix() {
    // The provider's answer for the key set {"a/b.txt", "a/c/d.txt"}
    // listed under prefix "a/" with delimiter "/": one direct object
    // and one folder-like grouping.
    let raw = RawListing {
        contents: vec![RawObject {
            key: Some("a/b.txt".to_string()),
            size: Some(42),
            last_modified: None,
            etag: Some("\"abc\"".to_string()),
            storage_class: Some("STANDARD".to_string()),
        }],
        common_prefixes: vec![Some("a/c/".to_string())],
        is_truncated: Some(false),
        next_continuation_token: None,
        prefix: Some("a/".to_string()),
    };
    let page = service().list_objects(Ok(raw)).unwrap();
    assert_eq!(page.objects.len(), 1);
    assert_eq!(page.objects[0].key, "a/b.txt");
    assert_eq!(page.objects[0].size, Some(42));
    assert!(!page.objects[0].is_folder);
    assert!(page.objects[0].content_type.is_none());
    assert_eq!(page.common_prefixes, vec!["a/c/".to_string()]);
    assert!(!page.is_truncated);
    assert!(page.next_continuation_token.is_none());
    assert_eq!(page.prefix.as_deref(), Some("a/"));
}

#[test]
fn listing_page_marks_folder_keys_and_keeps_order() {
    let raw = RawListing {
        contents: vec![
            RawObject {
                key: Some("logs/".to_string()),
                size: Some(0),
                last_modified: None,
                etag: None,
                storage_class: None,
            },
            RawObject {
                key: Some("logs/today.txt".to_string()),
                size: Some(7),
                last_modified: None,
                etag: None,
                storage_class: None,
            },
        ],
        common_prefixes: vec![],
        is_truncated: None,
        next_continuation_token: None,
        prefix: None,
    };
    let page = service().list_objects(Ok(raw)).unwrap();
    assert_eq!(page.objects.len(), 2);
    assert!(page.objects[0].is_folder);
    assert!(!page.objects[1].is_folder);
    assert!(!page.is_truncated);
}

#[test]
fn truncated_listing_passes_the_continuation_token_through() {
    let raw = RawListing {
        contents: vec![],
        common_prefixes: vec![],
        is_truncated: Some(true),
        next_continuation_token: Some("next-page".to_string()),
        prefix: None,
    };
    let page = service().list_objects(Ok(raw)).unwrap();
    assert!(page.is_truncated);
    assert_eq!(page.next_continuation_token.as_deref(), Some("next-page"));
}

#[test]
fn get_object_info_derives_the_folder_mark_from_the_key() {
    let raw = RawHeadObject {
        content_length: Some(0),
        last_modified: None,
        etag: None,
        storage_class: None,
        content_type: Some("application/octet-stream".to_string()),
    };
    let info = service().get_object_info("reports/", Ok(raw)).unwrap();
    assert_eq!(info.key, "reports/");
    assert_eq!(info.size, Some(0));
    assert!(info.is_folder);
    assert_eq!(info.content_type.as_deref(), Some("application/octet-stream"));
}

#[test]
fn get_object_info_classifies_a_missing_key() {
    let f = ProviderFailure {
        debug_repr: "ServiceError { code: \"NoSuchKey\" }".to_string(),
        message: "service error".to_string(),
    };
    let r = service().get_object_info("gone.txt", Err(f));
    assert_eq!(r.unwrap_err(), S3Error::ObjectNotFound);
}

#[test]
fn delete_object_succeeds_whenever_the_provider_answers_ok() {
    // The provider's delete is idempotent: deleting an absent key is
    // answered with success, and the client keeps that answer.
    let r = service().delete_object(Ok(()));
    assert!(r.is_ok());
}

#[test]
fn delete_object_classifies_a_transport_failure() {
    let r = service().delete_object(Err(transport_failure()));
    assert!(matches!(r, Err(S3Error::NetworkError(_))));
}

#[test]
fn bulk_delete_returns_only_the_failed_keys() {
    // k1 deleted, k2 reported as failed: the call succeeds and returns [k2].
    let errs = vec![RawDeleteFailure { key: Some("k2".to_string()) }];
    let failed = service().delete_objects(Ok(errs)).unwrap();
    assert_eq!(failed, vec!["k2".to_string()]);
}

#[test]
fn bulk_delete_with_no_failures_returns_an_empty_list() {
    let failed = service().delete_objects(Ok(vec![])).unwrap();
    assert!(failed.is_empty());
}

#[test]
fn bulk_delete_skips_failures_without_a_key_and_keeps_order() {
    let errs = vec![
        RawDeleteFailure { key: Some("a".to_string()) },
        RawDeleteFailure { key: None },
        RawDeleteFailure { key: Some("b".to_string()) },
    ];
    let failed = service().delete_objects(Ok(errs)).unwrap();
    assert_eq!(failed, vec!["a".to_string(), "b".to_string()]);
}

#[test]
fn bulk_delete_fails_only_when_the_whole_request_fails() {
    let r = service().delete_objects(Err(transport_failure()));
    assert!(matches!(r, Err(S3Error::NetworkError(_))));
}

#[test]
fn create_bucket_attaches_a_constraint_for_a_non_default_region() {
    let req = service().create_bucket("new-bucket", Some("eu-central-1"));
    assert_eq!(req.bucket, "new-bucket");
    assert_eq!(req.location_constraint.as_deref(), Some("eu-central-1"));
}

#[test]
fn create_bucket_omits_the_constraint_for_the_fallback_region() {
    let req = service().create_bucket("new-bucket", Some("us-east-1"));
    assert!(req.location_constraint.is_none());
    let req2 = service().create_bucket("new-bucket", None);
    assert!(req2.location_constraint.is_none());
}

#[test]
fn create_folder_normalizes_the_key_and_writes_nothing() {
    let req = service().create_folder("bucket", "reports");
    assert_eq!(req.bucket, "bucket");
    assert_eq!(req.key, "reports/");
    assert!(req.body.is_empty());
}

#[test]
fn create_folder_keeps_an_already_normalized_path() {
    let req = service().create_folder("bucket", "reports/");
    assert_eq!(req.key, "reports/");
}

#[test]
fn a_created_folder_is_described_as_a_folder() {
    let s = service();
    let put = s.create_folder("bucket", "reports");
    let head = RawHeadObject {
        content_length: Some(put.body.len() as i64),
        last_modified: None,
        etag: None,
        storage_class: None,
        content_type: None,
    };
    let info = s.get_object_info(put.key.as_str(), Ok(head)).unwrap();
    assert_eq!(info.key, "reports/");
    assert_eq!(info.size, Some(0));
    assert!(info.is_folder);
}

#[test]
fn copy_object_joins_bucket_and_key_into_the_copy_source() {
    let req = service().copy_object("src-bucket", "path/to/file.txt", "dst-bucket", "copy.txt");
    assert_eq!(req.copy_source, "src-bucket/path/to/file.txt");
    assert_eq!(req.bucket, "dst-bucket");
    assert_eq!(req.key, "copy.txt");
}

#[test]
fn bucket_location_keeps_a_reported_region() {
    let r = service().get_bucket_location(Ok(Some("eu-west-1".to_string())));
    assert_eq!(r.unwrap(), "eu-west-1");
}

#[test]
fn bucket_location_normalizes_empty_and_absent_to_the_fallback() {
    let s = service();
    assert_eq!(s.get_bucket_location(Ok(Some(String::new()))).unwrap(), "us-east-1");
    assert_eq!(s.get_bucket_location(Ok(None)).unwrap(), "us-east-1");
}

#[test]
fn presigned_download_url_rejects_a_zero_expiry() {
    let r = service().generate_presigned_download_url("bucket", "key", 0);
    assert_eq!(
        r.unwrap_err(),
        S3Error::UnknownError("Presigned URL expiry must be greater than zero".to_string())
    );
}

#[test]
fn presigned_download_url_rejects_an_expiry_over_one_week() {
    let r = service().generate_presigned_download_url("bucket", "key", 604801);
    assert_eq!(
        r.unwrap_err(),
        S3Error::UnknownError("Presigned URL expiry must be at most one week".to_string())
    );
}

#[test]
fn presigned_download_url_accepts_the_one_week_bound() {
    let p = service().generate_presigned_download_url("bucket", "key", 604800).unwrap();
    assert_eq!(p.bucket, "bucket");
    assert_eq!(p.key, "key");
    assert_eq!(p.expires_in_secs, 604800);
    assert!(p.content_type.is_none());
    assert_eq!(p.config.expires(), std::time::Duration::from_secs(604800));
}

#[test]
fn presigned_upload_url_carries_the_content_type() {
    let p = service()
        .generate_presigned_upload_url("bucket", "key", 3600, Some("text/plain".to_string()))
        .unwrap();
    assert_eq!(p.content_type.as_deref(), Some("text/plain"));
    assert_eq!(p.expires_in_secs, 3600);
}

#[test]
fn presigned_upload_url_rejects_invalid_expiries() {
    let s = service();
    assert!(s.generate_presigned_upload_url("b", "k", 0, None).is_err());
    assert!(s.generate_presigned_upload_url("b", "k", 1_000_000, None).is_err());
}
