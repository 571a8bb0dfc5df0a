//! MIME types by file name.

use vstd::prelude::*;

use crate::text::optional;

verus! {

/// The MIME type that `mime_guess` gives a path by its extension, if it knows the extension.
pub uninterp spec fn guessed_mime(path: Seq<char>) -> Option<Seq<char>>;

/// `mime_guess::from_path` looks the extension of a path up in a fixed table; `first` takes the
/// first type it finds there. The result depends on the path alone, on systems whose paths are cut
/// at `/` and nowhere else.
#[verifier::external_body]
pub(crate) fn guess_mime(path: &str) -> (res: Option<String>)
    ensures
        optional(res) == guessed_mime(path@),
{
    mime_guess::from_path(path).first().map(|mime| mime.to_string())
}

} // verus!
