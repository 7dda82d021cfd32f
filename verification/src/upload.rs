//! Uploading one local file.
//!
//! An upload is decided in two steps around the one call that stores the
//! object. `upload_file` looks at what is known of the local file and either
//! refuses or says what is to be sent; `confirm_upload` reads what the store
//! answered.

use crate::error::{store_error_text, ErrorKind, Operation, StoreError, StoreErrorView};
use crate::media_type::{content_type_of, first_guess, generic_binary_type, infer_content_type};
use vstd::prelude::*;
use vstd::string::*;

verus! {

/// One put call: the object `key` of `bucket`, with the bytes of the file at
/// `source_path` as its body, stored under `content_type`.
#[derive(Clone, Debug, PartialEq, Eq)]
pub struct PutRequest {
    pub bucket: String,
    pub key: String,
    pub source_path: String,
    pub content_type: String,
}

/// What a `PutRequest` holds, as plain text.
pub ghost struct PutRequestView {
    pub bucket: Seq<char>,
    pub key: Seq<char>,
    pub source_path: Seq<char>,
    pub content_type: Seq<char>,
}

impl View for PutRequest {
    type V = PutRequestView;

    open spec fn view(&self) -> PutRequestView {
        PutRequestView {
            bucket: self.bucket@,
            key: self.key@,
            source_path: self.source_path@,
            content_type: self.content_type@,
        }
    }
}

/// Why a file was not uploaded.
#[derive(Clone, Debug, PartialEq, Eq)]
pub enum UploadError {
    /// The local file does not exist; nothing was sent.
    NotFound { path: String },
    /// The store did not accept the object.
    Store(StoreError),
}

/// What an `UploadError` holds, as plain text.
pub ghost enum UploadErrorView {
    NotFound { path: Seq<char> },
    Store(StoreErrorView),
}

impl View for UploadError {
    type V = UploadErrorView;

    open spec fn view(&self) -> UploadErrorView {
        match self {
            UploadError::NotFound { path } => UploadErrorView::NotFound { path: path@ },
            UploadError::Store(error) => UploadErrorView::Store(error@),
        }
    }
}

/// The key under which a local file is stored: its path, letter for letter,
/// directory separators included.
pub open spec fn object_key(local_path: Seq<char>) -> Seq<char> {
    local_path
}

/// What `upload_file` decides. A file that is not there is refused with
/// `NotFound`, and no request comes into being. A file that is there is sent
/// to `bucket` under the key and the content type that its path gives.
pub open spec fn upload_plan(bucket: Seq<char>, local_path: Seq<char>, file_present: bool)
    -> Result<PutRequestView, UploadErrorView> {
    if file_present {
        Ok(
            PutRequestView {
                bucket,
                key: object_key(local_path),
                source_path: local_path,
                content_type: content_type_of(local_path),
            },
        )
    } else {
        Err(UploadErrorView::NotFound { path: local_path })
    }
}

/// The plain text of what `upload_file` returned.
pub open spec fn plan_view(plan: Result<PutRequest, UploadError>) -> Result<
    PutRequestView,
    UploadErrorView,
> {
    match plan {
        Ok(request) => Ok(request@),
        Err(error) => Err(error@),
    }
}

/// The number of calls to the store that a plan asks for: one for a request,
/// none for a refusal.
pub open spec fn calls_asked_for(plan: Result<PutRequestView, UploadErrorView>) -> nat {
    match plan {
        Ok(_) => 1,
        Err(_) => 0,
    }
}

/// The plain text of what the put call came back with.
pub open spec fn reply_view(outcome: Result<(), String>) -> Result<(), Seq<char>> {
    match outcome {
        Ok(_) => Ok(()),
        Err(reason) => Err(reason@),
    }
}

/// The plain text of what `confirm_upload` returned.
pub open spec fn result_view(result: Result<(), UploadError>) -> Result<(), UploadErrorView> {
    match result {
        Ok(_) => Ok(()),
        Err(error) => Err(error@),
    }
}

/// What `confirm_upload` decides: success where the store accepted the
/// object, otherwise a store failure that names the bucket and the key and
/// carries the reason.
pub open spec fn upload_result(request: PutRequestView, outcome: Result<(), Seq<char>>) -> Result<
    (),
    UploadErrorView,
> {
    match outcome {
        Ok(_) => Ok(()),
        Err(reason) => Err(
            UploadErrorView::Store(
                StoreErrorView {
                    operation: Operation::PutObject,
                    bucket: request.bucket,
                    key: Some(request.key),
                    reason,
                },
            ),
        ),
    }
}

/// The message of an upload failure.
pub open spec fn upload_error_text(error: UploadErrorView) -> Seq<char> {
    match error {
        UploadErrorView::NotFound { path } => "no file at "@ + path,
        UploadErrorView::Store(inner) => store_error_text(inner),
    }
}

/// The kind of an upload failure.
pub open spec fn upload_error_kind(error: UploadErrorView) -> ErrorKind {
    match error {
        UploadErrorView::NotFound { .. } => ErrorKind::NotFound,
        UploadErrorView::Store(_) => ErrorKind::Store,
    }
}

impl UploadError {
    /// Whether the file was missing or the store failed.
    pub fn kind(&self) -> (kind: ErrorKind)
        ensures
            kind == upload_error_kind(self@),
    {
        match self {
            UploadError::NotFound { .. } => ErrorKind::NotFound,
            UploadError::Store(_) => ErrorKind::Store,
        }
    }

    /// The text shown to the user when the failure ends the run.
    pub fn message(&self) -> (text: String)
        ensures
            text@ == upload_error_text(self@),
    {
        match self {
            UploadError::NotFound { path } => {
                let mut text = String::from_str("no file at ");
                text.append(path.as_str());
                text
            },
            UploadError::Store(error) => error.message(),
        }
    }
}

/// Prepares the upload of the file at `local_path` to `bucket`.
///
/// `file_present` says whether the path names an existing, readable regular
/// file. Where it does not, the upload fails with `NotFound` and there is no
/// request to send. Where it does, the request stores the file under its own
/// path as key, with the content type inferred from its name; a name without
/// any `.` is stored as `application/octet-stream`.
pub fn upload_file(bucket: &str, local_path: &str, file_present: bool) -> (plan: Result<
    PutRequest,
    UploadError,
>)
    ensures
        plan_view(plan) == upload_plan(bucket@, local_path@, file_present),
        plan is Err <==> !file_present,
        file_present && !local_path@.contains('.') ==> (plan matches Ok(request)
            && request.content_type@ == generic_binary_type()),
{
    if !file_present {
        return Err(UploadError::NotFound { path: String::from_str(local_path) });
    }
    Ok(
        PutRequest {
            bucket: String::from_str(bucket),
            key: String::from_str(local_path),
            source_path: String::from_str(local_path),
            content_type: infer_content_type(local_path),
        },
    )
}

/// Reads the outcome of the put call that `request` described.
///
/// An accepted object ends the upload well. Anything else, a transport or
/// authorization failure as much as a non-success status, comes back as a
/// `StoreError`.
pub fn confirm_upload(request: &PutRequest, outcome: Result<(), String>) -> (result: Result<
    (),
    UploadError,
>)
    ensures
        result_view(result) == upload_result(request@, reply_view(outcome)),
        result is Ok <==> outcome is Ok,
{
    match outcome {
        Ok(_) => Ok(()),
        Err(reason) => Err(
            UploadError::Store(
                StoreError::storing(request.bucket.as_str(), request.key.as_str(), reason),
            ),
        ),
    }
}

/// A file that is not there is never sent: whatever the bucket and the path,
/// the plan is the `NotFound` failure for that path, and it asks for no call
/// to the store. A file that is there asks for exactly one.
pub proof fn lemma_missing_file_is_refused(bucket: Seq<char>, local_path: Seq<char>)
    ensures
        upload_plan(bucket, local_path, false) == Err::<PutRequestView, UploadErrorView>(
            UploadErrorView::NotFound { path: local_path },
        ),
        calls_asked_for(upload_plan(bucket, local_path, false)) == 0,
        calls_asked_for(upload_plan(bucket, local_path, true)) == 1,
{
}

/// A file without a known media type is stored as `application/octet-stream`,
/// and a file with one is stored under it.
pub proof fn lemma_content_type_follows_guess(bucket: Seq<char>, local_path: Seq<char>)
    ensures
        upload_plan(bucket, local_path, true) matches Ok(request) && request.content_type == (
        match first_guess(local_path) {
            Some(media_type) => media_type,
            None => "application/octet-stream"@,
        }),
{
}

/// The key and the content type of an upload depend on the path alone: the
/// same file is stored under the same key whenever and wherever it is sent.
pub proof fn lemma_key_depends_on_path_alone(
    bucket: Seq<char>,
    other_bucket: Seq<char>,
    local_path: Seq<char>,
)
    ensures
        upload_plan(bucket, local_path, true) matches Ok(first) && upload_plan(
            other_bucket,
            local_path,
            true,
        ) matches Ok(second) && first.key == local_path && second.key == local_path
            && first.content_type == second.content_type,
{
}

} // verus!
