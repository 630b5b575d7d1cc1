//! The data model shared by file hosting backends.

use vstd::prelude::*;

pub mod mock;

verus! {

/// What a successful upload reports back to the caller: the stored file's
/// identity, its content digests and its metadata.
#[derive(Debug, Clone, PartialEq, Eq)]
pub struct UploadFileData {
    pub file_id: String,
    pub file_name: String,
    pub content_length: u32,
    pub content_sha512: String,
    pub content_sha1: String,
    pub content_md5: Option<String>,
    pub content_type: String,
    pub upload_timestamp: u64,
}

} // verus!
