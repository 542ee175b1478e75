//! The object-storage client: construction from a validated
//! configuration, and the operation surface.
//!
//! An operation is split into its pure halves. A request builder
//! computes, from plain values, exactly what is sent to the provider —
//! which optional parameters are present, how a folder key is
//! normalized, when a location constraint is attached. A response
//! interpreter turns what the provider answered — again plain values —
//! into the operation's typed result, classifying every failure through
//! the one table in `errors`. The network round-trip between the two
//! halves is performed by the caller that owns the connection.

use vstd::prelude::*;
use vstd::string::*;

use crate::config::canonical_provider_endpoint;
use crate::config::ConfigFields;
use crate::config::S3Config;
use crate::errors::classifies;
use crate::errors::classify_provider_error;
use crate::errors::ProviderFailure;
use crate::errors::S3Error;
use crate::is_folder_key;
use crate::text::str_contains;
use crate::text::str_ends_with;

verus! {

/// The fallback region used when a configuration leaves the region
/// empty and when the provider reports none.
pub open spec fn default_region() -> Seq<char> {
    "us-east-1"@
}

/// One bucket as the provider lists it: every field as reported, absent
/// ones included.
#[derive(Debug, Clone)]
pub struct RawBucket {
    pub name: Option<String>,
    pub creation_date: Option<String>,
}

/// One listed object as the provider reports it.
#[derive(Debug, Clone)]
pub struct RawObject {
    pub key: Option<String>,
    pub size: Option<i64>,
    pub last_modified: Option<String>,
    pub etag: Option<String>,
    pub storage_class: Option<String>,
}

/// One page of a listing as the provider reports it.
#[derive(Debug, Clone)]
pub struct RawListing {
    pub contents: Vec<RawObject>,
    pub common_prefixes: Vec<Option<String>>,
    pub is_truncated: Option<bool>,
    pub next_continuation_token: Option<String>,
    pub prefix: Option<String>,
}

/// A head-object answer as the provider reports it.
#[derive(Debug, Clone)]
pub struct RawHeadObject {
    pub content_length: Option<i64>,
    pub last_modified: Option<String>,
    pub etag: Option<String>,
    pub storage_class: Option<String>,
    pub content_type: Option<String>,
}

/// One per-key failure from a bulk delete, as the provider reports it.
#[derive(Debug, Clone)]
pub struct RawDeleteFailure {
    pub key: Option<String>,
}

/// A bucket as this client describes it.
#[derive(Debug, Clone)]
pub struct BucketInfo {
    pub name: String,
    pub creation_date: Option<String>,
    pub region: Option<String>,
}

/// An object as this client describes it; `is_folder` is derived from
/// the key alone.
#[derive(Debug, Clone)]
pub struct ObjectInfo {
    pub key: String,
    pub size: Option<i64>,
    pub last_modified: Option<String>,
    pub etag: Option<String>,
    pub storage_class: Option<String>,
    pub content_type: Option<String>,
    pub is_folder: bool,
}

/// One page of a listing as this client describes it: objects in
/// provider order, the folder view under the delimiter, and the
/// continuation state.
#[derive(Debug, Clone)]
pub struct ListObjectsResponse {
    pub objects: Vec<ObjectInfo>,
    pub common_prefixes: Vec<String>,
    pub is_truncated: bool,
    pub next_continuation_token: Option<String>,
    pub prefix: Option<String>,
}

/// A generated presigned URL together with the expiry it was issued
/// for.
#[derive(Debug, Clone)]
pub struct PresignedUrlResponse {
    pub url: String,
    pub expires_in: u64,
}

/// The described bucket keeps the reported fields, an absent name
/// becoming the empty string; the region is only populated when it is
/// queried explicitly, never by a listing.
pub open spec fn bucket_info_matches(raw: RawBucket, b: BucketInfo) -> bool {
    &&& b.name@ == (match raw.name {
        Some(n) => n@,
        None => Seq::<char>::empty(),
    })
    &&& b.creation_date.deep_view() == raw.creation_date.deep_view()
    &&& b.region is None
}

/// Every described bucket matches the reported one at its position.
pub open spec fn buckets_match(raw: Seq<RawBucket>, bs: Seq<BucketInfo>) -> bool {
    &&& bs.len() == raw.len()
    &&& forall|i: int| 0 <= i < raw.len() ==> bucket_info_matches(raw[i], #[trigger] bs[i])
}

/// The described object keeps the reported fields, an absent key
/// becoming the empty string; the folder mark is derived from the key,
/// and a listing never reports a content type.
pub open spec fn object_info_matches(raw: RawObject, o: ObjectInfo) -> bool {
    &&& o.key@ == (match raw.key {
        Some(k) => k@,
        None => Seq::<char>::empty(),
    })
    &&& o.size == raw.size
    &&& o.last_modified.deep_view() == raw.last_modified.deep_view()
    &&& o.etag.deep_view() == raw.etag.deep_view()
    &&& o.storage_class.deep_view() == raw.storage_class.deep_view()
    &&& o.content_type is None
    &&& o.is_folder == is_folder_key(o.key@)
}

/// Every described object matches the reported one at its position:
/// provider order is kept, nothing is sorted or dropped.
pub open spec fn objects_match(raw: Seq<RawObject>, os: Seq<ObjectInfo>) -> bool {
    &&& os.len() == raw.len()
    &&& forall|i: int| 0 <= i < raw.len() ==> object_info_matches(raw[i], #[trigger] os[i])
}

/// The strings present in a sequence of optional strings, in order.
pub open spec fn present_strings(s: Seq<Option<String>>) -> Seq<Seq<char>>
    decreases s.len(),
{
    if s.len() == 0 {
        Seq::empty()
    } else {
        match s.last() {
            Some(x) => present_strings(s.drop_last()).push(x@),
            None => present_strings(s.drop_last()),
        }
    }
}

/// The page keeps the provider's objects and common prefixes in order,
/// treats an unreported truncation flag as "not truncated", and passes
/// the continuation token and echoed prefix through unchanged.
pub open spec fn listing_matches(raw: RawListing, resp: ListObjectsResponse) -> bool {
    &&& objects_match(raw.contents@, resp.objects@)
    &&& resp.common_prefixes.deep_view() == present_strings(raw.common_prefixes@)
    &&& resp.is_truncated == (raw.is_truncated matches Some(true))
    &&& resp.next_continuation_token.deep_view() == raw.next_continuation_token.deep_view()
    &&& resp.prefix.deep_view() == raw.prefix.deep_view()
}

/// The described object for a head-object answer on `key`: the fields
/// are the reported ones and the folder mark is derived from the
/// literal key that was asked about.
pub open spec fn head_info_matches(key: Seq<char>, raw: RawHeadObject, o: ObjectInfo) -> bool {
    &&& o.key@ == key
    &&& o.size == raw.content_length
    &&& o.last_modified.deep_view() == raw.last_modified.deep_view()
    &&& o.etag.deep_view() == raw.etag.deep_view()
    &&& o.storage_class.deep_view() == raw.storage_class.deep_view()
    &&& o.content_type.deep_view() == raw.content_type.deep_view()
    &&& o.is_folder == is_folder_key(key)
}

/// The keys of the reported per-key failures, in report order; a
/// failure without a key contributes nothing.
pub open spec fn spec_failed_keys(errs: Seq<RawDeleteFailure>) -> Seq<Seq<char>>
    decreases errs.len(),
{
    if errs.len() == 0 {
        Seq::empty()
    } else {
        match errs.last().key {
            Some(k) => spec_failed_keys(errs.drop_last()).push(k@),
            None => spec_failed_keys(errs.drop_last()),
        }
    }
}

/// A folder path normalized to a folder key: unchanged when it already
/// ends with the path separator, otherwise with one appended.
pub open spec fn spec_folder_key(path: Seq<char>) -> Seq<char> {
    if is_folder_key(path) {
        path
    } else {
        path.push('/')
    }
}

/// A normalized folder path always names a folder marker: the key a
/// folder is created under reports `is_folder` when it is described
/// later.
pub proof fn lemma_folder_key_is_folder(path: Seq<char>)
    ensures
        is_folder_key(spec_folder_key(path)),
{
}

/// What a listing request carries: an optional parameter is sent iff it
/// was supplied — an absent prefix and an empty prefix are different
/// requests.
#[derive(Debug, Clone)]
pub struct ListObjectsRequest {
    pub bucket: String,
    pub prefix: Option<String>,
    pub delimiter: Option<String>,
    pub max_keys: Option<i32>,
    pub continuation_token: Option<String>,
}

/// What a create-bucket request carries: the location constraint is
/// attached exactly when a region other than the fallback region was
/// asked for.
#[derive(Debug, Clone)]
pub struct CreateBucketRequest {
    pub bucket: String,
    pub location_constraint: Option<String>,
}

/// What a put-object request carries.
#[derive(Debug, Clone)]
pub struct PutObjectRequest {
    pub bucket: String,
    pub key: String,
    pub body: Vec<u8>,
}

/// What a server-side copy request carries.
#[derive(Debug, Clone)]
pub struct CopyObjectRequest {
    pub copy_source: String,
    pub bucket: String,
    pub key: String,
}

/// The client built from a configuration: the configuration itself and
/// the two derived connection parameters — the region the provider is
/// addressed with, and whether path-style addressing is forced.
#[derive(Debug)]
pub struct S3Service {
    pub config: S3Config,
    pub effective_region: String,
    pub use_path_style: bool,
}

/// The client `s` is the one construction owes for the configuration
/// `c`: the configuration is kept, the region defaults to the fallback
/// region when empty, and path-style addressing is used exactly for
/// non-canonical endpoints.
pub open spec fn service_matches_config(s: S3Service, c: ConfigFields) -> bool {
    &&& s.config@ == c
    &&& s.effective_region@ == (if c.region.len() == 0 {
        default_region()
    } else {
        c.region
    })
    &&& s.use_path_style == !canonical_provider_endpoint(c.endpoint)
}

impl Clone for S3Service {
    /// Clones the client; the copy carries the same value.
    fn clone(&self) -> (r: Self)
        ensures
            r == *self,
    {
        S3Service {
            config: self.config.clone(),
            effective_region: self.effective_region.clone(),
            use_path_style: self.use_path_style,
        }
    }
}

impl S3Service {
    /// Builds a client from a configuration. An empty credential or
    /// endpoint is rejected with a `ConfigurationError`; otherwise the
    /// client keeps the configuration, resolves an empty region to the
    /// fallback region, and decides path-style addressing from the
    /// endpoint.
    pub fn new(config: S3Config) -> (r: Result<S3Service, S3Error>)
        ensures
            config.access_key@.len() == 0 || config.secret_key@.len() == 0 ==> (r matches Err(
                S3Error::ConfigurationError(m),
            ) && m@ == "Access key and secret key cannot be empty"@),
            config.access_key@.len() > 0 && config.secret_key@.len() > 0 && config.endpoint@.len()
                == 0 ==> (r matches Err(S3Error::ConfigurationError(m)) && m@
                == "Endpoint cannot be empty"@),
            config.access_key@.len() > 0 && config.secret_key@.len() > 0 && config.endpoint@.len()
                > 0 ==> (r matches Ok(s) && service_matches_config(s, config@)),
    {
        if config.access_key.as_str().is_empty() || config.secret_key.as_str().is_empty() {
            return Err(
                S3Error::ConfigurationError(
                    String::from_str("Access key and secret key cannot be empty"),
                ),
            );
        }
        if config.endpoint.as_str().is_empty() {
            return Err(S3Error::ConfigurationError(String::from_str("Endpoint cannot be empty")));
        }
        let use_path_style = !str_contains(config.endpoint.as_str(), "amazonaws.com");
        let effective_region = if config.region.as_str().is_empty() {
            String::from_str("us-east-1")
        } else {
            config.region.clone()
        };
        Ok(S3Service { config, effective_region, use_path_style })
    }

    /// Interprets the reachability probe: any successful listing
    /// answer means the connection works; any failure is classified.
    pub fn test_connection(&self, outcome: Result<(), ProviderFailure>) -> (r: Result<
        bool,
        S3Error,
    >)
        ensures
            outcome is Ok ==> (r matches Ok(b) && b == true),
            outcome matches Err(f) ==> (r matches Err(e) && classifies(
                f.debug_repr@,
                f.message@,
                e,
            )),
    {
        match outcome {
            Ok(_) => Ok(true),
            Err(f) => Err(classify_provider_error(&f)),
        }
    }

    /// Interprets a bucket-listing answer: every reported bucket is
    /// described, in provider order; an empty sequence is a valid
    /// result, not an error.
    pub fn list_buckets(&self, outcome: Result<Vec<RawBucket>, ProviderFailure>) -> (r: Result<
        Vec<BucketInfo>,
        S3Error,
    >)
        ensures
            outcome matches Ok(raw) ==> (r matches Ok(bs) && buckets_match(raw@, bs@)),
            outcome matches Err(f) ==> (r matches Err(e) && classifies(
                f.debug_repr@,
                f.message@,
                e,
            )),
    {
        match outcome {
            Ok(raw) => {
                let n = raw.len();
                let mut bs: Vec<BucketInfo> = Vec::new();
                let mut i: usize = 0;
                while i < n
                    invariant
                        n == raw@.len(),
                        i <= n,
                        bs@.len() == i,
                        forall|k: int|
                            0 <= k < i ==> bucket_info_matches(raw@[k], #[trigger] bs@[k]),
                    decreases n - i,
                {
                    let b = &raw[i];
                    let name = match &b.name {
                        Some(s) => s.clone(),
                        None => String::new(),
                    };
                    let creation_date = match &b.creation_date {
                        Some(s) => Some(s.clone()),
                        None => None,
                    };
                    bs.push(BucketInfo { name, creation_date, region: None });
                    i += 1;
                }
                Ok(bs)
            },
            Err(f) => Err(classify_provider_error(&f)),
        }
    }

    /// Assembles a listing request. Each optional parameter is carried
    /// exactly as supplied: an omitted parameter stays absent and is
    /// never sent as an empty string.
    pub fn list_objects_request(
        &self,
        bucket: &str,
        prefix: Option<String>,
        delimiter: Option<String>,
        max_keys: Option<i32>,
        continuation_token: Option<String>,
    ) -> (req: ListObjectsRequest)
        ensures
            req.bucket@ == bucket@,
            req.prefix == prefix,
            req.delimiter == delimiter,
            req.max_keys == max_keys,
            req.continuation_token == continuation_token,
    {
        ListObjectsRequest {
            bucket: String::from_str(bucket),
            prefix,
            delimiter,
            max_keys,
            continuation_token,
        }
    }

    /// Interprets one listing page: objects and common prefixes are
    /// kept in provider order, the folder mark of each object is
    /// derived from its key, and the continuation state is passed
    /// through for the caller to drive pagination with.
    pub fn list_objects(&self, outcome: Result<RawListing, ProviderFailure>) -> (r: Result<
        ListObjectsResponse,
        S3Error,
    >)
        ensures
            outcome matches Ok(raw) ==> (r matches Ok(resp) && listing_matches(raw, resp)),
            outcome matches Err(f) ==> (r matches Err(e) && classifies(
                f.debug_repr@,
                f.message@,
                e,
            )),
    {
        match outcome {
            Ok(raw) => {
                let n = raw.contents.len();
                let mut objects: Vec<ObjectInfo> = Vec::new();
                let mut i: usize = 0;
                while i < n
                    invariant
                        n == raw.contents@.len(),
                        i <= n,
                        objects@.len() == i,
                        forall|k: int|
                            0 <= k < i ==> object_info_matches(
                                raw.contents@[k],
                                #[trigger] objects@[k],
                            ),
                    decreases n - i,
                {
                    let o = &raw.contents[i];
                    let key = match &o.key {
                        Some(s) => s.clone(),
                        None => String::new(),
                    };
                    let is_folder = str_ends_with(key.as_str(), '/');
                    let size = o.size;
                    let last_modified = match &o.last_modified {
                        Some(s) => Some(s.clone()),
                        None => None,
                    };
                    let etag = match &o.etag {
                        Some(s) => Some(s.clone()),
                        None => None,
                    };
                    let storage_class = match &o.storage_class {
                        Some(s) => Some(s.clone()),
                        None => None,
                    };
                    objects.push(
                        ObjectInfo {
                            key,
                            size,
                            last_modified,
                            etag,
                            storage_class,
                            content_type: None,
                            is_folder,
                        },
                    );
                    i += 1;
                }
                let m = raw.common_prefixes.len();
                let mut common_prefixes: Vec<String> = Vec::new();
                let mut j: usize = 0;
                while j < m
                    invariant
                        m == raw.common_prefixes@.len(),
                        j <= m,
                        common_prefixes.deep_view() == present_strings(
                            raw.common_prefixes@.subrange(0, j as int),
                        ),
                    decreases m - j,
                {
                    proof {
                        assert(raw.common_prefixes@.subrange(0, j + 1 as int).drop_last()
                            =~= raw.common_prefixes@.subrange(0, j as int));
                        assert(raw.common_prefixes@.subrange(0, j + 1 as int).last()
                            == raw.common_prefixes@[j as int]);
                    }
                    match &raw.common_prefixes[j] {
                        Some(p) => {
                            common_prefixes.push(p.clone());
                            assert(common_prefixes.deep_view() =~= present_strings(
                                raw.common_prefixes@.subrange(0, j + 1 as int),
                            ));
                        },
                        None => {
                            assert(common_prefixes.deep_view() =~= present_strings(
                                raw.common_prefixes@.subrange(0, j + 1 as int),
                            ));
                        },
                    }
                    j += 1;
                }
                proof {
                    assert(raw.common_prefixes@.subrange(0, m as int) =~= raw.common_prefixes@);
                }
                let is_truncated = match raw.is_truncated {
                    Some(t) => t,
                    None => false,
                };
                Ok(
                    ListObjectsResponse {
                        objects,
                        common_prefixes,
                        is_truncated,
                        next_continuation_token: raw.next_continuation_token,
                        prefix: raw.prefix,
                    },
                )
            },
            Err(f) => Err(classify_provider_error(&f)),
        }
    }

    /// Interprets a head-object answer: the description carries the
    /// reported fields under the literal key that was asked about, and
    /// the folder mark is derived from that key, not from a provider
    /// flag. A missing key is reported by the classified failure.
    pub fn get_object_info(&self, key: &str, outcome: Result<RawHeadObject, ProviderFailure>) -> (r:
        Result<ObjectInfo, S3Error>)
        ensures
            outcome matches Ok(raw) ==> (r matches Ok(o) && head_info_matches(key@, raw, o)),
            outcome matches Err(f) ==> (r matches Err(e) && classifies(
                f.debug_repr@,
                f.message@,
                e,
            )),
    {
        match outcome {
            Ok(raw) => {
                let is_folder = str_ends_with(key, '/');
                Ok(
                    ObjectInfo {
                        key: String::from_str(key),
                        size: raw.content_length,
                        last_modified: raw.last_modified,
                        etag: raw.etag,
                        storage_class: raw.storage_class,
                        content_type: raw.content_type,
                        is_folder,
                    },
                )
            },
            Err(f) => Err(classify_provider_error(&f)),
        }
    }

    /// Interprets a single delete: the provider's delete is idempotent,
    /// so any successful answer — including one for a key that never
    /// existed — is success, and only a classified provider failure is
    /// an error.
    pub fn delete_object(&self, outcome: Result<(), ProviderFailure>) -> (r: Result<(), S3Error>)
        ensures
            outcome is Ok ==> r is Ok,
            outcome matches Err(f) ==> (r matches Err(e) && classifies(
                f.debug_repr@,
                f.message@,
                e,
            )),
    {
        match outcome {
            Ok(_) => Ok(()),
            Err(f) => Err(classify_provider_error(&f)),
        }
    }

    /// Interprets a bulk delete: the call succeeds whenever the
    /// provider answered, and the result is exactly the keys the
    /// provider reported as failed, in report order — per-key failures
    /// are data, not an error. Only a failure of the whole request is
    /// an error, classified as usual.
    pub fn delete_objects(&self, outcome: Result<Vec<RawDeleteFailure>, ProviderFailure>) -> (r:
        Result<Vec<String>, S3Error>)
        ensures
            outcome matches Ok(errs) ==> (r matches Ok(failed) && failed.deep_view()
                == spec_failed_keys(errs@)),
            outcome matches Err(f) ==> (r matches Err(e) && classifies(
                f.debug_repr@,
                f.message@,
                e,
            )),
    {
        match outcome {
            Ok(errs) => {
                let n = errs.len();
                let mut failed: Vec<String> = Vec::new();
                let mut i: usize = 0;
                while i < n
                    invariant
                        n == errs@.len(),
                        i <= n,
                        failed.deep_view() == spec_failed_keys(errs@.subrange(0, i as int)),
                    decreases n - i,
                {
                    proof {
                        assert(errs@.subrange(0, i + 1 as int).drop_last() =~= errs@.subrange(
                            0,
                            i as int,
                        ));
                        assert(errs@.subrange(0, i + 1 as int).last() == errs@[i as int]);
                    }
                    match &errs[i].key {
                        Some(k) => {
                            failed.push(k.clone());
                            assert(failed.deep_view() =~= spec_failed_keys(
                                errs@.subrange(0, i + 1 as int),
                            ));
                        },
                        None => {
                            assert(failed.deep_view() =~= spec_failed_keys(
                                errs@.subrange(0, i + 1 as int),
                            ));
                        },
                    }
                    i += 1;
                }
                proof {
                    assert(errs@.subrange(0, n as int) =~= errs@);
                }
                Ok(failed)
            },
            Err(f) => Err(classify_provider_error(&f)),
        }
    }

    /// Assembles a create-bucket request: a location constraint is
    /// attached exactly when a region was supplied that differs from
    /// the fallback region — omitting it for such a region would be
    /// rejected by the provider.
    pub fn create_bucket(&self, bucket: &str, region: Option<&str>) -> (req: CreateBucketRequest)
        ensures
            req.bucket@ == bucket@,
            match region {
                Some(rg) => {
                    if rg@ == default_region() {
                        req.location_constraint is None
                    } else {
                        req.location_constraint matches Some(lc) && lc@ == rg@
                    }
                },
                None => req.location_constraint is None,
            },
    {
        let location_constraint = match region {
            Some(rg) => {
                if crate::text::str_eq(rg, "us-east-1") {
                    None
                } else {
                    Some(String::from_str(rg))
                }
            },
            None => None,
        };
        CreateBucketRequest { bucket: String::from_str(bucket), location_constraint }
    }

    /// Interprets a delete-bucket answer: the provider refuses to
    /// delete a non-empty bucket, and that refusal arrives here as a
    /// failure and is classified, never ignored.
    pub fn delete_bucket(&self, outcome: Result<(), ProviderFailure>) -> (r: Result<(), S3Error>)
        ensures
            outcome is Ok ==> r is Ok,
            outcome matches Err(f) ==> (r matches Err(e) && classifies(
                f.debug_repr@,
                f.message@,
                e,
            )),
    {
        match outcome {
            Ok(_) => Ok(()),
            Err(f) => Err(classify_provider_error(&f)),
        }
    }

    /// Assembles the put-object request a folder is created with: the
    /// path normalized to end with the separator, and a zero-byte body.
    /// Creating a folder that already exists rewrites the same
    /// zero-byte object, so the operation is idempotent.
    pub fn create_folder(&self, bucket: &str, folder_path: &str) -> (req: PutObjectRequest)
        ensures
            req.bucket@ == bucket@,
            req.key@ == spec_folder_key(folder_path@),
            req.body@ == Seq::<u8>::empty(),
    {
        let key = if str_ends_with(folder_path, '/') {
            String::from_str(folder_path)
        } else {
            let k = String::from_str(folder_path).concat("/");
            proof {
                reveal_strlit("/");
                assert(k@ =~= folder_path@.push('/'));
            }
            k
        };
        PutObjectRequest { bucket: String::from_str(bucket), key, body: Vec::new() }
    }

    /// Interprets the answer to an operation that returns no data —
    /// a bucket creation, a folder creation, a server-side copy: any
    /// provider failure is classified.
    pub fn complete_operation(&self, outcome: Result<(), ProviderFailure>) -> (r: Result<
        (),
        S3Error,
    >)
        ensures
            outcome is Ok ==> r is Ok,
            outcome matches Err(f) ==> (r matches Err(e) && classifies(
                f.debug_repr@,
                f.message@,
                e,
            )),
    {
        match outcome {
            Ok(_) => Ok(()),
            Err(f) => Err(classify_provider_error(&f)),
        }
    }

    /// Assembles a server-side copy request: the copy source is the
    /// source bucket and key joined by the path separator.
    pub fn copy_object(
        &self,
        source_bucket: &str,
        source_key: &str,
        dest_bucket: &str,
        dest_key: &str,
    ) -> (req: CopyObjectRequest)
        ensures
            req.copy_source@ == source_bucket@ + "/"@ + source_key@,
            req.bucket@ == dest_bucket@,
            req.key@ == dest_key@,
    {
        let copy_source = String::from_str(source_bucket).concat("/").concat(source_key);
        CopyObjectRequest {
            copy_source,
            bucket: String::from_str(dest_bucket),
            key: String::from_str(dest_key),
        }
    }

    /// Interprets a bucket-location answer: an absent or empty reported
    /// constraint is normalized to the fallback region string, never to
    /// an empty string.
    pub fn get_bucket_location(&self, outcome: Result<Option<String>, ProviderFailure>) -> (r:
        Result<String, S3Error>)
        ensures
            outcome matches Ok(lc) ==> (r matches Ok(region) && region@ == (match lc {
                Some(l) => if l@.len() > 0 {
                    l@
                } else {
                    default_region()
                },
                None => default_region(),
            })),
            outcome matches Err(f) ==> (r matches Err(e) && classifies(
                f.debug_repr@,
                f.message@,
                e,
            )),
    {
        match outcome {
            Ok(lc) => {
                match lc {
                    Some(l) => {
                        if l.as_str().is_empty() {
                            Ok(String::from_str("us-east-1"))
                        } else {
                            Ok(l)
                        }
                    },
                    None => Ok(String::from_str("us-east-1")),
                }
            },
            Err(f) => Err(classify_provider_error(&f)),
        }
    }
}

} // verus!
