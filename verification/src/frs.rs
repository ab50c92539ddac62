//! The file repository service: settings, request and response shapes, and
//! the decisions its HTTP handlers take around the object store.

use vstd::prelude::*;
use crate::ids::{new_uuid_v7, uuid_string, uuid_text};
use crate::text::{contains, contains_text, str_eq, string_append, to_owned_string, trim_char, trim_leading, trim_trailing};

verus! {

/// Settings of the file repository service.
#[derive(Debug, Clone)]
pub struct AppConfig {
    pub grpc_addr: String,
    pub http_addr: String,
    pub log_level: String,
    pub s3_endpoint: String,
    pub s3_region: String,
    pub s3_access_key: String,
    pub s3_secret_key: String,
    pub s3_bucket: String,
    pub nats_url: String,
    pub enable_nats: bool,
}

/// Environment values of the service's settings (absent when not set).
pub struct EnvValues {
    pub grpc_addr: Option<String>,
    pub http_addr: Option<String>,
    pub log_level: Option<String>,
    pub s3_endpoint: Option<String>,
    pub s3_region: Option<String>,
    pub s3_access_key: Option<String>,
    pub s3_secret_key: Option<String>,
    pub s3_bucket: Option<String>,
    pub nats_url: Option<String>,
    pub enable_nats: Option<String>,
}

pub open spec fn or_default(v: Option<String>, d: Seq<char>) -> Seq<char> {
    match v {
        Some(s) => s@,
        None => d,
    }
}

fn value_or(v: Option<String>, d: &str) -> (r: String)
    ensures
        r@ == or_default(v, d@),
{
    match v {
        Some(s) => s,
        None => to_owned_string(d),
    }
}

/// `str::parse::<bool>` read with `false` for anything but `"true"`.
pub open spec fn flag_value(v: Option<String>) -> bool {
    match v {
        Some(s) => s@ == "true"@,
        None => false,
    }
}

impl AppConfig {
    /// The settings from the environment values, with defaults for those
    /// that are missing; NATS is enabled only by the value `true`.
    pub fn with_defaults(env: EnvValues) -> (c: AppConfig)
        ensures
            c.grpc_addr@ == or_default(env.grpc_addr, "0.0.0.0:50054"@),
            c.http_addr@ == or_default(env.http_addr, "0.0.0.0:9094"@),
            c.log_level@ == or_default(env.log_level, "info"@),
            c.s3_endpoint@ == or_default(env.s3_endpoint, "http://minio.upgo.svc.cluster.local:9000"@),
            c.s3_region@ == or_default(env.s3_region, "us-east-1"@),
            c.s3_access_key@ == or_default(env.s3_access_key, "minioadmin"@),
            c.s3_secret_key@ == or_default(env.s3_secret_key, "minioadmin"@),
            c.s3_bucket@ == or_default(env.s3_bucket, "upgo-files"@),
            c.nats_url@ == or_default(env.nats_url, "nats://nats.upgo.svc.cluster.local:4222"@),
            c.enable_nats == flag_value(env.enable_nats),
    {
        let enable_nats = match &env.enable_nats {
            Some(s) => str_eq(s.as_str(), "true"),
            None => false,
        };
        AppConfig {
            grpc_addr: value_or(env.grpc_addr, "0.0.0.0:50054"),
            http_addr: value_or(env.http_addr, "0.0.0.0:9094"),
            log_level: value_or(env.log_level, "info"),
            s3_endpoint: value_or(env.s3_endpoint, "http://minio.upgo.svc.cluster.local:9000"),
            s3_region: value_or(env.s3_region, "us-east-1"),
            s3_access_key: value_or(env.s3_access_key, "minioadmin"),
            s3_secret_key: value_or(env.s3_secret_key, "minioadmin"),
            s3_bucket: value_or(env.s3_bucket, "upgo-files"),
            nats_url: value_or(env.nats_url, "nats://nats.upgo.svc.cluster.local:4222"),
            enable_nats,
        }
    }
}

// ---- request and response shapes ------------------------------------------

#[derive(Debug)]
pub struct UploadRequest {
    pub key: String,
    pub content_type: Option<String>,
}

#[derive(Debug)]
pub struct UploadResponse {
    pub key: String,
    pub etag: String,
    pub size: usize,
}

#[derive(Debug)]
pub struct FileInfo {
    pub key: String,
    pub size: i64,
    pub content_type: Option<String>,
    pub etag: Option<String>,
    pub last_modified: Option<String>,
}

#[derive(Debug)]
pub struct FileListResponse {
    pub files: Vec<FileListItem>,
    pub is_truncated: bool,
}

#[derive(Debug)]
pub struct FileListItem {
    pub key: String,
    pub size: i64,
    pub etag: Option<String>,
    pub last_modified: Option<String>,
}

#[derive(Debug)]
pub struct ListQuery {
    pub prefix: Option<String>,
    pub max_keys: Option<i32>,
}

#[derive(Debug)]
pub struct PresignedResponse {
    pub url: String,
    pub key: String,
    pub expires_in: u64,
}

#[derive(Debug)]
pub struct PresignedUploadRequest {
    pub key: String,
    pub expires_secs: Option<u64>,
}

#[derive(Debug)]
pub struct PresignedDownloadQuery {
    pub expires_secs: Option<u64>,
}

// ---- handler decisions -------------------------------------------------------

/// The key a new object is stored under: the requested key, or a fresh UUID
/// when none was requested.
pub fn object_key(requested: &str) -> (k: String)
    ensures
        requested@.len() > 0 ==> k@ == requested@,
        requested@.len() == 0 ==> exists|x: u128| k@ == #[trigger] uuid_text(x),
{
    if requested.is_empty() {
        uuid_string(new_uuid_v7())
    } else {
        to_owned_string(requested)
    }
}

/// An entity tag without its surrounding quotes.
pub fn clean_etag(etag: &str) -> (r: String)
    ensures
        r@ == trim_trailing(trim_leading(etag@, '"'), '"'),
{
    trim_char(etag, '"')
}

/// How long presigned URLs stay valid when the request names no duration.
pub const DEFAULT_PRESIGN_SECS: u64 = 3600;

pub fn presign_secs(requested: Option<u64>) -> (r: u64)
    ensures
        r == (match requested {
            Some(s) => s,
            None => DEFAULT_PRESIGN_SECS,
        }),
{
    match requested {
        Some(s) => s,
        None => DEFAULT_PRESIGN_SECS,
    }
}

/// The content type of a downloaded object, `application/octet-stream` when unknown.
pub fn content_type_or_default(content_type: Option<&str>) -> (r: String)
    ensures
        r@ == (match content_type {
            Some(c) => c@,
            None => "application/octet-stream"@,
        }),
{
    match content_type {
        Some(c) => to_owned_string(c),
        None => to_owned_string("application/octet-stream"),
    }
}

/// An HTTP failure: status code and message.
#[derive(Debug)]
pub struct Failure {
    pub status: u16,
    pub message: String,
}

/// The failure reported when a download fails: a missing object is "not
/// found", anything else an internal error.
pub fn download_failure(error: &str) -> (f: Failure)
    ensures
        contains_text(error@, "NoSuchKey"@) ==> f.status == 404 && f.message@ == "File not found"@,
        !contains_text(error@, "NoSuchKey"@) ==> f.status == 500 && f.message@ == "Download failed: "@ + error@,
{
    if contains(error, "NoSuchKey") {
        Failure { status: 404, message: to_owned_string("File not found") }
    } else {
        let mut m = to_owned_string("Download failed: ");
        string_append(&mut m, error);
        Failure { status: 500, message: m }
    }
}

/// The failure reported when reading an object's metadata fails.
pub fn info_failure(error: &str) -> (f: Failure)
    ensures
        (contains_text(error@, "NoSuchKey"@) || contains_text(error@, "Not Found"@))
            ==> f.status == 404 && f.message@ == "File not found"@,
        !(contains_text(error@, "NoSuchKey"@) || contains_text(error@, "Not Found"@))
            ==> f.status == 500 && f.message@ == "Info failed: "@ + error@,
{
    if contains(error, "NoSuchKey") || contains(error, "Not Found") {
        Failure { status: 404, message: to_owned_string("File not found") }
    } else {
        let mut m = to_owned_string("Info failed: ");
        string_append(&mut m, error);
        Failure { status: 500, message: m }
    }
}

/// A failure of another operation, reported as an internal error with the
/// operation named (`Upload failed`, `Delete failed`, ...).
pub fn internal_failure(what: &str, error: &str) -> (f: Failure)
    ensures
        f.status == 500,
        f.message@ == what@ + ": "@ + error@,
{
    let mut m = to_owned_string(what);
    string_append(&mut m, ": ");
    string_append(&mut m, error);
    Failure { status: 500, message: m }
}

/// What checking for the bucket found.
#[derive(Debug, Clone, Copy, PartialEq, Eq, Structural)]
pub enum BucketCheck {
    Exists,
    NotFound,
    Unknown,
}

/// Whether the bucket must be created: unless it is known to exist.
pub fn bucket_needs_creation(check: BucketCheck) -> (r: bool)
    ensures
        r == (check != BucketCheck::Exists),
{
    match check {
        BucketCheck::Exists => false,
        _ => true,
    }
}

} // verus!
