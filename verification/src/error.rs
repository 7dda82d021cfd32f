//! Failures reported by the object store.

use vstd::prelude::*;
use vstd::string::*;

verus! {

/// The two calls that the façade makes against the store.
#[derive(Clone, Copy, Debug, PartialEq, Eq, Structural)]
pub enum Operation {
    /// Listing the objects of a bucket.
    ListObjects,
    /// Storing one object.
    PutObject,
}

/// The kinds of failure that end a run.
#[derive(Clone, Copy, Debug, PartialEq, Eq, Structural)]
pub enum ErrorKind {
    /// The settings do not make a client.
    Config,
    /// The store or the way to it failed.
    Store,
    /// The file to upload is not there.
    NotFound,
}

/// The exit status that tells the caller of the program which kind of
/// failure ended it: 78 for a configuration error, 69 for a store that did
/// not serve the call, 66 for a missing input file.
pub open spec fn exit_code_of(kind: ErrorKind) -> u8 {
    match kind {
        ErrorKind::Config => 78,
        ErrorKind::Store => 69,
        ErrorKind::NotFound => 66,
    }
}

impl ErrorKind {
    /// The exit status of a run that ended with a failure of this kind.
    pub fn exit_code(&self) -> (code: u8)
        ensures
            code == exit_code_of(*self),
            code != 0,
    {
        match self {
            ErrorKind::Config => 78,
            ErrorKind::Store => 69,
            ErrorKind::NotFound => 66,
        }
    }
}

/// Each kind of failure has an exit status of its own, and none of them is
/// the status of a run that went well.
pub proof fn lemma_exit_codes_tell_kinds_apart(first: ErrorKind, second: ErrorKind)
    ensures
        exit_code_of(first) == exit_code_of(second) <==> first == second,
        exit_code_of(first) != 0,
{
}

/// A call to the store that did not succeed: a transport, authentication or
/// authorization failure, a malformed response or a non-success status. It
/// names the call, the bucket and, for an upload, the key, so that the
/// failure can be traced.
#[derive(Clone, Debug, PartialEq, Eq)]
pub struct StoreError {
    pub operation: Operation,
    pub bucket: String,
    pub key: Option<String>,
    pub reason: String,
}

/// What a `StoreError` holds, as plain text.
pub ghost struct StoreErrorView {
    pub operation: Operation,
    pub bucket: Seq<char>,
    pub key: Option<Seq<char>>,
    pub reason: Seq<char>,
}

impl View for StoreError {
    type V = StoreErrorView;

    open spec fn view(&self) -> StoreErrorView {
        StoreErrorView {
            operation: self.operation,
            bucket: self.bucket@,
            key: self.key.deep_view(),
            reason: self.reason@,
        }
    }
}

/// The name under which the store's protocol knows an operation.
pub open spec fn operation_name(operation: Operation) -> Seq<char> {
    match operation {
        Operation::ListObjects => "ListObjectsV2"@,
        Operation::PutObject => "PutObject"@,
    }
}

/// The part of a message that names the key, empty where the call had none.
pub open spec fn key_clause(key: Option<Seq<char>>) -> Seq<char> {
    match key {
        Some(text) => ", key "@ + text,
        None => Seq::empty(),
    }
}

/// The message of a store failure: the operation, the bucket, the key where
/// there is one, and the reason that the store or the transport gave.
pub open spec fn store_error_text(error: StoreErrorView) -> Seq<char> {
    operation_name(error.operation) + " failed for bucket "@ + error.bucket + key_clause(
        error.key,
    ) + ": "@ + error.reason
}

impl Operation {
    /// The protocol's name for the operation.
    pub fn name(&self) -> (name: &'static str)
        ensures
            name@ == operation_name(*self),
    {
        match self {
            Operation::ListObjects => "ListObjectsV2",
            Operation::PutObject => "PutObject",
        }
    }
}

impl StoreError {
    /// A failed listing of `bucket`.
    pub fn listing(bucket: &str, reason: String) -> (error: StoreError)
        ensures
            error@ == (StoreErrorView {
                operation: Operation::ListObjects,
                bucket: bucket@,
                key: None,
                reason: reason@,
            }),
    {
        StoreError {
            operation: Operation::ListObjects,
            bucket: String::from_str(bucket),
            key: None,
            reason,
        }
    }

    /// A failed upload of `key` to `bucket`.
    pub fn storing(bucket: &str, key: &str, reason: String) -> (error: StoreError)
        ensures
            error@ == (StoreErrorView {
                operation: Operation::PutObject,
                bucket: bucket@,
                key: Some(key@),
                reason: reason@,
            }),
    {
        StoreError {
            operation: Operation::PutObject,
            bucket: String::from_str(bucket),
            key: Some(String::from_str(key)),
            reason,
        }
    }

    /// The kind of this failure: always `Store`.
    pub fn kind(&self) -> (kind: ErrorKind)
        ensures
            kind == ErrorKind::Store,
    {
        ErrorKind::Store
    }

    /// The text shown to the user when the failure ends the run.
    pub fn message(&self) -> (text: String)
        ensures
            text@ == store_error_text(self@),
    {
        let mut text = String::from_str(self.operation.name());
        text.append(" failed for bucket ");
        text.append(self.bucket.as_str());
        match &self.key {
            Some(key) => {
                text.append(", key ");
                text.append(key.as_str());
            },
            None => {
                assert(text@ + Seq::<char>::empty() =~= text@);
            },
        }
        text.append(": ");
        text.append(self.reason.as_str());
        text
    }
}

} // verus!
