//! The file that a body is written to before it is moved to where it belongs.

use std::path::Path;

use vstd::prelude::*;

use crate::text::after_last;

verus! {

/// Whether a path is relative, has more than one segment, and is divided by slashes alone, so that
/// every system divides it alike.
pub open spec fn portable(path: Seq<char>) -> bool {
    &&& path.contains('/')
    &&& path[0] != '/'
    &&& !path.contains('\\')
}

/// The last segment of a path.
pub open spec fn last_segment(path: Seq<char>) -> Seq<char> {
    after_last(path, '/')
}

/// What stands in a path before its last segment.
pub open spec fn directory(path: Seq<char>) -> Seq<char> {
    path.take(path.len() - last_segment(path).len())
}

/// Whether the last segment of a path is the name of a file.
pub open spec fn names_file(path: Seq<char>) -> bool {
    &&& last_segment(path).len() > 0
    &&& last_segment(path) != "."@
    &&& last_segment(path) != ".."@
}

/// The name of a file without its extension: what stands before the last dot, unless that is
/// nothing.
pub open spec fn stem(name: Seq<char>) -> Seq<char> {
    let extension = after_last(name, '.');
    if extension.len() + 1 < name.len() {
        name.take(name.len() - extension.len() - 1)
    } else {
        name
    }
}

/// The path of a file with another extension.
pub open spec fn extended(path: Seq<char>, extension: Seq<char>) -> Seq<char> {
    directory(path) + stem(last_segment(path)) + "."@ + extension
}

/// What becomes of a path that does not end in the name of a file when it is given an extension.
pub uninterp spec fn path_with_extension(path: Seq<char>, extension: Seq<char>) -> Seq<char>;

/// The name of the part file of a body.
pub open spec fn part_of(body: Seq<char>) -> Seq<char> {
    if names_file(body) {
        extended(body, "part.br"@)
    } else {
        path_with_extension(body, "part.br"@)
    }
}

/// `Path::with_extension`: the extension of the last segment is replaced, or added where there is
/// none. Where the last segment is not the name of a file, what becomes of the path is named, not
/// stated; and nothing is stated of a path that different systems divide differently. The call
/// panics on an extension with a separator in it.
#[verifier::external_body]
fn with_extension(path: &str, extension: &str) -> (res: String)
    requires
        extension@ == "part.br"@,
    ensures
        portable(path@) && names_file(path@) ==> res@ == extended(path@, extension@),
        portable(path@) && !names_file(path@) ==> res@ == path_with_extension(path@, extension@),
{
    Path::new(path).with_extension(extension).to_string_lossy().into_owned()
}

/// The name of the part file of a body: that of the body, with another extension.
pub fn part_name(body: &str) -> (res: String)
    ensures
        portable(body@) ==> res@ == part_of(body@),
{
    with_extension(body, "part.br")
}

}
