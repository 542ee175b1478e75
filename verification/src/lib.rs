//! Client-side library for an S3-compatible object-storage service:
//! configuration validation, a typed operation surface, a closed error
//! taxonomy, and a per-name connection cache.

pub mod cache;
pub mod config;
pub mod errors;
pub mod presign;
pub mod probe;
pub mod service;
pub mod settings;
pub mod text;

use vstd::prelude::*;

verus! {

/// True iff a key names a synthetic folder marker: it ends with the
/// path separator `/`.
pub open spec fn is_folder_key(key: Seq<char>) -> bool {
    key.len() > 0 && key[key.len() - 1] == '/'
}

} // verus!
