//! Content types inferred from a file name.
//!
//! The table that maps file extensions to media types belongs to the
//! `mime_guess` crate. This module asks it for its first guess and decides
//! what is sent where it has none.

use vstd::prelude::*;
use vstd::string::*;

verus! {

/// The first media type that `mime_guess` knows for the extension of `path`,
/// in lower case, or `None` where the path has no extension or the table has
/// no entry for it. The table itself is not modelled: the guess is only known
/// to depend on the text of the path and on nothing else.
pub uninterp spec fn first_guess(path: Seq<char>) -> Option<Seq<char>>;

/// The content type sent when nothing more specific is known of a file.
pub open spec fn generic_binary_type() -> Seq<char> {
    "application/octet-stream"@
}

/// The content type that goes with a guess: the guess itself where there is
/// one, the generic binary type where there is none.
pub open spec fn content_type_for_guess(guess: Option<Seq<char>>) -> Seq<char> {
    match guess {
        Some(media_type) => media_type,
        None => generic_binary_type(),
    }
}

/// The content type under which the file at `path` is stored.
pub open spec fn content_type_of(path: Seq<char>) -> Seq<char> {
    content_type_for_guess(first_guess(path))
}

/// Calls `mime_guess::from_path(path).first()` and hands the media type back
/// as text.
///
/// Trusted, not proved. The result is `first_guess` of the path: the call
/// looks at the text of the path only (no disk access), takes the extension
/// as `Path::extension` sees it, looks it up without regard to case in a
/// table that is fixed when the crate is built, and yields the first entry.
/// A path without any `.` has no extension, so there is no guess for it.
/// Every entry of the table parses as a media type, so the call returns for
/// every path.
#[verifier::external_body]
fn guess_media_type(path: &str) -> (guess: Option<String>)
    ensures
        guess.deep_view() == first_guess(path@),
        !path@.contains('.') ==> guess is None,
{
    match mime_guess::from_path(path).first() {
        Some(media_type) => Some(media_type.to_string()),
        None => None,
    }
}

/// Settles on a content type: keeps a guess that was made and falls back to
/// `application/octet-stream` where none was.
pub fn content_type_or_generic(guess: Option<String>) -> (content_type: String)
    ensures
        content_type@ == content_type_for_guess(guess.deep_view()),
{
    match guess {
        Some(media_type) => media_type,
        None => String::from_str("application/octet-stream"),
    }
}

/// Infers the content type of a file from its name: the first media type
/// known for its extension, or `application/octet-stream` where the extension
/// is missing or unknown. A name without any `.` has no extension.
pub fn infer_content_type(path: &str) -> (content_type: String)
    ensures
        content_type@ == content_type_of(path@),
        !path@.contains('.') ==> content_type@ == generic_binary_type(),
{
    let guess = guess_media_type(path);
    content_type_or_generic(guess)
}

} // verus!
