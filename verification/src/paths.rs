//! Paths as text: the file name of a path and the extension of a file name.

use std::path::Path;
use vstd::prelude::*;

verus! {

/// The final component that `Path::file_name` finds in `path`, by the path
/// syntax of the platform the library is built for; `None` where the path has
/// no such component (it is empty, a root, or ends in `..`).
pub uninterp spec fn path_file_name(path: Seq<char>) -> Option<Seq<char>>;

/// The extension of the file name `name`: what follows its last `.`, unless
/// the name has no `.` or its only `.` is its first character.
pub open spec fn file_extension(name: Seq<char>) -> Option<Seq<char>> {
    match name.index_of_last('.') {
        Some(at) => if at > 0 {
            Some(name.subrange(at + 1, name.len() as int))
        } else {
            None
        },
        None => None,
    }
}

/// The file name of `path`.
///
/// Trusted: calls `Path::file_name` on `Path::new(path)`. The contract only
/// says that the result is the function's value on this path, under the name
/// [`path_file_name`]. A name taken from a `str` is valid Unicode, so turning
/// it back into a `String` changes nothing.
#[verifier::external_body]
pub(crate) fn file_name_of(path: &str) -> (name: Option<String>)
    ensures
        name is Some <==> path_file_name(path@) is Some,
        name matches Some(n) ==> path_file_name(path@) == Some(n@),
{
    Path::new(path).file_name().map(|n| n.to_string_lossy().into_owned())
}

/// The extension of the file name `name`, without the dot.
pub fn extension_of(name: &str) -> (ext: Option<&str>)
    ensures
        ext is Some <==> file_extension(name@) is Some,
        ext matches Some(e) ==> file_extension(name@) == Some(e@),
{
    let chars = crate::text::chars_of(name);
    let len: usize = chars.len();
    let mut at: usize = len;
    while at > 0 && chars[at - 1] != '.'
        invariant
            at <= len,
            len == chars@.len(),
            forall|j: int| at <= j < len ==> chars@[j] != '.',
        decreases at,
    {
        at -= 1;
    }
    proof {
        name@.index_of_last_ensures('.');
    }
    if at <= 1 {
        // No dot at all, or the only dot leads the name.
        assert(file_extension(name@) is None) by {
            if at == 1 {
                assert(chars@[0] == '.');
            }
        }
        None
    } else {
        assert(chars@[at - 1] == '.');
        assert(name@.index_of_last('.') == Some(at - 1));
        Some(name.substring_char(at, len))
    }
}

} // verus!
