//! What the record store beside the service accepts: the admission rules
//! for a new upload record.
//!
//! The record store itself (identifiers, timestamps, the table) is not part
//! of this library. Only the decision whether a record may be created is.

use vstd::prelude::*;

verus! {

/// The details of an upload, as a client submits them.
#[derive(Debug)]
pub struct UploadRequest {
    pub filename: String,
    pub s3_key: String,
    pub s3_bucket: String,
    pub s3_url: String,
    pub file_size: i64,
    pub content_type: Option<String>,
}

/// Why an upload record is not created.
#[derive(Clone, Copy, Debug, PartialEq, Eq, Structural)]
pub enum Rejection {
    EmptyFilename,
    EmptyKey,
    NonPositiveSize,
}

/// The first rule that an upload with these details breaks, if it breaks
/// one: the file name must not be empty, the storage key must not be
/// empty, and the size must be positive.
pub open spec fn rejection(filename: Seq<char>, key: Seq<char>, size: int) -> Option<Rejection> {
    if filename.len() == 0 {
        Some(Rejection::EmptyFilename)
    } else if key.len() == 0 {
        Some(Rejection::EmptyKey)
    } else if size <= 0 {
        Some(Rejection::NonPositiveSize)
    } else {
        None
    }
}

impl Rejection {
    /// The explanation sent to the client.
    pub open spec fn message(self) -> Seq<char> {
        match self {
            Rejection::EmptyFilename => "Filename cannot be empty"@,
            Rejection::EmptyKey => "S3 key cannot be empty"@,
            Rejection::NonPositiveSize => "File size must be greater than 0"@,
        }
    }

    /// The explanation sent to the client.
    pub fn explain(self) -> (text: String)
        ensures
            text@ == self.message(),
    {
        match self {
            Rejection::EmptyFilename => "Filename cannot be empty".to_owned(),
            Rejection::EmptyKey => "S3 key cannot be empty".to_owned(),
            Rejection::NonPositiveSize => "File size must be greater than 0".to_owned(),
        }
    }
}

/// Decides whether a record may be created for `request`.
pub fn validate_upload(request: &UploadRequest) -> (r: Result<(), Rejection>)
    ensures
        match rejection(request.filename@, request.s3_key@, request.file_size as int) {
            Some(reason) => r == Err::<(), Rejection>(reason),
            None => r is Ok,
        },
{
    if request.filename.as_str().is_empty() {
        Err(Rejection::EmptyFilename)
    } else if request.s3_key.as_str().is_empty() {
        Err(Rejection::EmptyKey)
    } else if request.file_size <= 0 {
        Err(Rejection::NonPositiveSize)
    } else {
        Ok(())
    }
}

} // verus!
