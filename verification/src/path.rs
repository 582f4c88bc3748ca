//! File-system paths, held as UTF-8 text.

use vstd::prelude::*;

verus! {

/// The path that `std::path::Path::join` makes of `base` and `part` (with the path
/// separators of the target the crate is built for).
pub uninterp spec fn joined_path(base: Seq<char>, part: Seq<char>) -> Seq<char>;

/// `base` joined with `part` (`std::path::Path::join`). Joining two UTF-8 paths gives
/// a UTF-8 path, so turning the result back into text loses nothing. Claimed: the
/// result is `joined_path` of the two arguments; nothing more is said of its form.
#[verifier::external_body]
pub(crate) fn join_path(base: &str, part: &str) -> (joined: String)
    ensures
        joined@ == joined_path(base@, part@),
{
    std::path::Path::new(base).join(part).to_string_lossy().into_owned()
}

} // verus!
