//! Failure messages: a kind tag, a colon, and a detail. The tag is the only
//! structured signal a caller gets about why something failed.

use crate::text::{contains_text, digits_of, has_substring, lower_of, lowercase, unsigned_decimal};
use vstd::prelude::*;

verus! {

/// The kinds of failure the bridge reports.
#[derive(Debug, Clone, Copy, PartialEq, Eq, Structural)]
pub enum FailureKind {
    /// An argument was absent, malformed or out of range.
    InvalidConfig,
    /// A handle argument was absent, or the bridge itself failed.
    FfiError,
    /// The requested model does not exist.
    ModelNotFound,
    /// The file or directory does not exist.
    FileNotFound,
    /// The input is in a format the engine cannot read.
    UnsupportedFormat,
    /// The input could not be read (permissions, I/O).
    FileReadError,
    /// Any other engine failure.
    EmbeddingFailed,
    /// The engine produced several vectors for one input.
    MultiVector,
    /// A chunk of a file result held several vectors.
    MultiVectorNotSupported,
}

impl FailureKind {
    pub open spec fn tag_spec(self) -> Seq<char> {
        match self {
            FailureKind::InvalidConfig => "INVALID_CONFIG"@,
            FailureKind::FfiError => "FFI_ERROR"@,
            FailureKind::ModelNotFound => "MODEL_NOT_FOUND"@,
            FailureKind::FileNotFound => "FILE_NOT_FOUND"@,
            FailureKind::UnsupportedFormat => "UNSUPPORTED_FORMAT"@,
            FailureKind::FileReadError => "FILE_READ_ERROR"@,
            FailureKind::EmbeddingFailed => "EMBEDDING_FAILED"@,
            FailureKind::MultiVector => "MULTI_VECTOR"@,
            FailureKind::MultiVectorNotSupported => "MULTI_VECTOR_NOT_SUPPORTED"@,
        }
    }

    /// The tag that starts every message of this kind.
    pub fn tag(&self) -> (r: &'static str)
        ensures
            r@ == self.tag_spec(),
    {
        match self {
            FailureKind::InvalidConfig => "INVALID_CONFIG",
            FailureKind::FfiError => "FFI_ERROR",
            FailureKind::ModelNotFound => "MODEL_NOT_FOUND",
            FailureKind::FileNotFound => "FILE_NOT_FOUND",
            FailureKind::UnsupportedFormat => "UNSUPPORTED_FORMAT",
            FailureKind::FileReadError => "FILE_READ_ERROR",
            FailureKind::EmbeddingFailed => "EMBEDDING_FAILED",
            FailureKind::MultiVector => "MULTI_VECTOR",
            FailureKind::MultiVectorNotSupported => "MULTI_VECTOR_NOT_SUPPORTED",
        }
    }
}

/// A message of kind `kind` with the given detail.
pub open spec fn failure_text(kind: FailureKind, detail: Seq<char>) -> Seq<char> {
    kind.tag_spec() + ": "@ + detail
}

/// Builds the message of kind `kind` with the given detail.
pub fn failure_message(kind: FailureKind, detail: &str) -> (r: String)
    ensures
        r@ == failure_text(kind, detail@),
{
    let mut s = String::from_str(kind.tag());
    s.append(": ");
    s.append(detail);
    s
}

/// Concatenation of three pieces of text.
pub fn join3(a: &str, b: &str, c: &str) -> (r: String)
    ensures
        r@ == a@ + b@ + c@,
{
    let mut s = String::from_str(a);
    s.append(b);
    s.append(c);
    s
}

// ---------------------------------------------------------------------------
// Classification of engine failures by the words of their lower-cased text.

/// The general class of an engine failure, shared by every kind of operation.
#[derive(Debug, Clone, Copy, PartialEq, Eq, Structural)]
pub enum FailureClass {
    /// The engine reported a 404: what was asked for does not exist.
    NotFound,
    /// The engine reported a permission problem.
    ReadFailure,
    /// Anything else.
    Generic,
}

/// The class of an engine failure: "404" means not found, "permission" a
/// read failure, anything else a general failure.
pub open spec fn failure_class(lower: Seq<char>) -> FailureClass {
    if has_substring(lower, "404"@) {
        FailureClass::NotFound
    } else if has_substring(lower, "permission"@) {
        FailureClass::ReadFailure
    } else {
        FailureClass::Generic
    }
}

/// Classifies the lower-cased text of an engine failure.
pub fn classify_engine_failure(lower: &str) -> (r: FailureClass)
    ensures
        r == failure_class(lower@),
{
    if contains_text(lower, "404") {
        FailureClass::NotFound
    } else if contains_text(lower, "permission") {
        FailureClass::ReadFailure
    } else {
        FailureClass::Generic
    }
}

/// Whether the lower-cased error text speaks of something missing.
pub open spec fn says_missing(lower: Seq<char>) -> bool {
    has_substring(lower, "not found"@) || has_substring(lower, "no such file"@)
}

/// Whether the lower-cased error text speaks of an unreadable format.
pub open spec fn says_unsupported(lower: Seq<char>) -> bool {
    has_substring(lower, "unsupported"@) || has_substring(lower, "format"@)
}

/// Whether the lower-cased error text speaks of denied access.
pub open spec fn says_denied(lower: Seq<char>) -> bool {
    has_substring(lower, "permission"@) || has_substring(lower, "access denied"@)
}

/// The kind of a failure to load a model or to embed texts: the general class
/// alone decides.
pub open spec fn engine_failure_kind(lower: Seq<char>) -> FailureKind {
    match failure_class(lower) {
        FailureClass::NotFound => FailureKind::ModelNotFound,
        FailureClass::ReadFailure => FailureKind::FileReadError,
        FailureClass::Generic => FailureKind::EmbeddingFailed,
    }
}

/// The kind of a file-embedding failure: the words about files come first,
/// then the general class.
pub open spec fn file_failure_kind(lower: Seq<char>) -> FailureKind {
    if says_missing(lower) {
        FailureKind::FileNotFound
    } else if says_unsupported(lower) {
        FailureKind::UnsupportedFormat
    } else if says_denied(lower) {
        FailureKind::FileReadError
    } else {
        match failure_class(lower) {
            FailureClass::NotFound => FailureKind::FileNotFound,
            FailureClass::ReadFailure => FailureKind::FileReadError,
            FailureClass::Generic => FailureKind::EmbeddingFailed,
        }
    }
}

/// The kind of a directory-embedding failure: the words about files come
/// first, then the general class.
pub open spec fn directory_failure_kind(lower: Seq<char>) -> FailureKind {
    if says_missing(lower) {
        FailureKind::FileNotFound
    } else if says_denied(lower) {
        FailureKind::FileReadError
    } else {
        match failure_class(lower) {
            FailureClass::NotFound => FailureKind::FileNotFound,
            FailureClass::ReadFailure => FailureKind::FileReadError,
            FailureClass::Generic => FailureKind::EmbeddingFailed,
        }
    }
}

/// The message for an engine failure of a model load or a text embedding:
/// a missing model is named by `not_found_detail`, a read failure by the
/// engine's text `err`, and anything else by `generic_detail`.
pub open spec fn engine_failure_text(
    lower: Seq<char>,
    not_found_detail: Seq<char>,
    err: Seq<char>,
    generic_detail: Seq<char>,
) -> Seq<char> {
    let kind = engine_failure_kind(lower);
    match failure_class(lower) {
        FailureClass::NotFound => failure_text(kind, not_found_detail),
        FailureClass::ReadFailure => failure_text(kind, err),
        FailureClass::Generic => failure_text(kind, generic_detail),
    }
}

/// The message for a failed model load of `model_id` with engine error `err`,
/// lower-cased as `lower`.
pub open spec fn load_failure_text(model_id: Seq<char>, err: Seq<char>, lower: Seq<char>) -> Seq<char> {
    engine_failure_text(lower, model_id, err, "Failed to load model '"@ + model_id + "': "@ + err)
}

/// The message for a failed text query with engine error `err`.
pub open spec fn query_failure_text(err: Seq<char>, lower: Seq<char>) -> Seq<char> {
    engine_failure_text(lower, err, err, "Text embedding generation failed: "@ + err)
}

/// The message for a failed batch of `count` texts with engine error `err`.
pub open spec fn batch_failure_text(count: nat, err: Seq<char>, lower: Seq<char>) -> Seq<char> {
    engine_failure_text(
        lower,
        err,
        err,
        "Batch embedding generation failed for "@ + digits_of(count) + " texts: "@ + err,
    )
}

/// The message for a failed embedding of the file `path`.
pub open spec fn file_failure_text(path: Seq<char>, err: Seq<char>, lower: Seq<char>) -> Seq<char> {
    let kind = file_failure_kind(lower);
    if kind == FailureKind::FileNotFound || kind == FailureKind::UnsupportedFormat {
        failure_text(kind, path)
    } else {
        failure_text(kind, err)
    }
}

/// The message for a failed embedding of the directory `dir`.
pub open spec fn directory_failure_text(dir: Seq<char>, err: Seq<char>, lower: Seq<char>) -> Seq<char> {
    let kind = directory_failure_kind(lower);
    if kind == FailureKind::FileNotFound {
        failure_text(kind, dir)
    } else if kind == FailureKind::FileReadError {
        failure_text(kind, err)
    } else {
        failure_text(kind, "Directory embedding failed - "@ + err)
    }
}

fn says_missing_exec(lower: &str) -> (r: bool)
    ensures
        r == says_missing(lower@),
{
    contains_text(lower, "not found") || contains_text(lower, "no such file")
}

fn says_unsupported_exec(lower: &str) -> (r: bool)
    ensures
        r == says_unsupported(lower@),
{
    contains_text(lower, "unsupported") || contains_text(lower, "format")
}

fn says_denied_exec(lower: &str) -> (r: bool)
    ensures
        r == says_denied(lower@),
{
    contains_text(lower, "permission") || contains_text(lower, "access denied")
}

/// Classifies an engine failure of a model load or a text embedding, given
/// the lower-cased error text.
pub fn classify_engine_failure_message(lower: &str, not_found_detail: &str, err: &str, generic_detail: &str) -> (r: String)
    ensures
        r@ == engine_failure_text(lower@, not_found_detail@, err@, generic_detail@),
{
    match classify_engine_failure(lower) {
        FailureClass::NotFound => failure_message(FailureKind::ModelNotFound, not_found_detail),
        FailureClass::ReadFailure => failure_message(FailureKind::FileReadError, err),
        FailureClass::Generic => failure_message(FailureKind::EmbeddingFailed, generic_detail),
    }
}

/// Classifies a model-loading failure, given the engine's error text and its
/// lower-cased form.
pub fn classify_load_failure(model_id: &str, err: &str, lower: &str) -> (r: String)
    ensures
        r@ == load_failure_text(model_id@, err@, lower@),
{
    let detail = join3("Failed to load model '", model_id, "': ");
    let detail = detail.concat(err);
    classify_engine_failure_message(lower, model_id, err, detail.as_str())
}

/// Classifies a failed text query, given the engine's error text and its
/// lower-cased form.
pub fn classify_query_failure(err: &str, lower: &str) -> (r: String)
    ensures
        r@ == query_failure_text(err@, lower@),
{
    let detail = String::from_str("Text embedding generation failed: ").concat(err);
    classify_engine_failure_message(lower, err, err, detail.as_str())
}

/// Classifies a failed batch of `count` texts, given the engine's error text
/// and its lower-cased form.
pub fn classify_batch_failure(count: usize, err: &str, lower: &str) -> (r: String)
    ensures
        r@ == batch_failure_text(count as nat, err@, lower@),
{
    let digits = unsigned_decimal(count as u64);
    let detail = join3("Batch embedding generation failed for ", digits.as_str(), " texts: ");
    let detail = detail.concat(err);
    classify_engine_failure_message(lower, err, err, detail.as_str())
}

/// Classifies a file-embedding failure, given the engine's error text and its
/// lower-cased form.
pub fn classify_file_failure(path: &str, err: &str, lower: &str) -> (r: String)
    ensures
        r@ == file_failure_text(path@, err@, lower@),
{
    if says_missing_exec(lower) {
        failure_message(FailureKind::FileNotFound, path)
    } else if says_unsupported_exec(lower) {
        failure_message(FailureKind::UnsupportedFormat, path)
    } else if says_denied_exec(lower) {
        failure_message(FailureKind::FileReadError, err)
    } else {
        match classify_engine_failure(lower) {
            FailureClass::NotFound => failure_message(FailureKind::FileNotFound, path),
            FailureClass::ReadFailure => failure_message(FailureKind::FileReadError, err),
            FailureClass::Generic => failure_message(FailureKind::EmbeddingFailed, err),
        }
    }
}

/// Classifies a directory-embedding failure, given the engine's error text and
/// its lower-cased form.
pub fn classify_directory_failure(dir: &str, err: &str, lower: &str) -> (r: String)
    ensures
        r@ == directory_failure_text(dir@, err@, lower@),
{
    if says_missing_exec(lower) {
        failure_message(FailureKind::FileNotFound, dir)
    } else if says_denied_exec(lower) {
        failure_message(FailureKind::FileReadError, err)
    } else {
        match classify_engine_failure(lower) {
            FailureClass::NotFound => failure_message(FailureKind::FileNotFound, dir),
            FailureClass::ReadFailure => failure_message(FailureKind::FileReadError, err),
            FailureClass::Generic => {
                let detail = String::from_str("Directory embedding failed - ").concat(err);
                failure_message(FailureKind::EmbeddingFailed, detail.as_str())
            },
        }
    }
}

/// The message for a failed model load of `model_id` with engine error `err`.
pub fn load_failure_message(model_id: &str, err: &str) -> (r: String)
    ensures
        r@ == load_failure_text(model_id@, err@, lower_of(err@)),
{
    let lower = lowercase(err);
    classify_load_failure(model_id, err, lower.as_str())
}

/// The message for a failed text query with engine error `err`.
pub fn query_failure_message(err: &str) -> (r: String)
    ensures
        r@ == query_failure_text(err@, lower_of(err@)),
{
    let lower = lowercase(err);
    classify_query_failure(err, lower.as_str())
}

/// The message for a failed batch of `count` texts with engine error `err`.
pub fn batch_failure_message(count: usize, err: &str) -> (r: String)
    ensures
        r@ == batch_failure_text(count as nat, err@, lower_of(err@)),
{
    let lower = lowercase(err);
    classify_batch_failure(count, err, lower.as_str())
}

/// The message for a failed embedding of the file `path` with engine error `err`.
pub fn file_failure_message(path: &str, err: &str) -> (r: String)
    ensures
        r@ == file_failure_text(path@, err@, lower_of(err@)),
{
    let lower = lowercase(err);
    classify_file_failure(path, err, lower.as_str())
}

/// The message for a failed embedding of the directory `dir` with engine error `err`.
pub fn directory_failure_message(dir: &str, err: &str) -> (r: String)
    ensures
        r@ == directory_failure_text(dir@, err@, lower_of(err@)),
{
    let lower = lowercase(err);
    classify_directory_failure(dir, err, lower.as_str())
}

// ---------------------------------------------------------------------------
// The per-thread record of the last synchronous failure.

/// Records `error` as the last failure, replacing any earlier one.
pub fn set_last_error(slot: &mut Option<String>, error: &str)
    ensures
        *final(slot) matches Some(m) && m@ == error@,
{
    *slot = Some(String::from_str(error));
}

/// Forgets the last failure.
pub fn clear_last_error(slot: &mut Option<String>)
    ensures
        *final(slot) == None::<String>,
{
    *slot = None;
}

/// Hands out the last failure, if any, and forgets it.
pub fn take_last_error(slot: &mut Option<String>) -> (r: Option<String>)
    ensures
        r == *old(slot),
        *final(slot) == None::<String>,
{
    slot.take()
}

} // verus!
