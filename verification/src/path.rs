//! Paths, kept as strings, and the three questions the file manager asks
//! of them.  The answers come from `std::path`.

use vstd::prelude::*;

verus! {

/// What `Path::parent` gives for the path with these characters.
pub uninterp spec fn parent_of(path: Seq<char>) -> Option<Seq<char>>;

/// What `Path::file_name` gives for the path with these characters.
pub uninterp spec fn file_name_of(path: Seq<char>) -> Option<Seq<char>>;

/// What `Path::with_file_name` gives for the path and the name with these
/// characters.
pub uninterp spec fn with_file_name_of(path: Seq<char>, name: Seq<char>) -> Seq<char>;

/// `Path::parent`: the path without its last component, or nothing when the
/// path ends in a root or is empty.  The answer depends on the characters of
/// the path alone.
#[verifier::external_body]
pub(crate) fn parent(path: &str) -> (r: Option<String>)
    ensures
        r.deep_view() == parent_of(path@),
{
    std::path::Path::new(path).parent().map(|p| p.to_string_lossy().into_owned())
}

/// `Path::file_name`: the last component of the path, or nothing when the
/// path ends in `..` or is a root.  The answer depends on the characters of
/// the path alone.
#[verifier::external_body]
pub(crate) fn file_name(path: &str) -> (r: Option<String>)
    ensures
        r.deep_view() == file_name_of(path@),
{
    std::path::Path::new(path).file_name().map(|n| n.to_string_lossy().into_owned())
}

/// `Path::with_file_name`: the path with its last component replaced by
/// `name`.  The answer depends on the characters of the two alone.
#[verifier::external_body]
pub(crate) fn with_file_name(path: &str, name: &str) -> (r: String)
    ensures
        r@ == with_file_name_of(path@, name@),
{
    std::path::Path::new(path).with_file_name(name).to_string_lossy().into_owned()
}

} // verus!
