//! Path operations of the standard library that the helpers rely on.
use vstd::prelude::*;

verus! {

/// What `std::path::Path::join` gives for these two paths.
pub uninterp spec fn path_join(base: Seq<char>, tail: Seq<char>) -> Seq<char>;

/// What `std::path::Path::file_name` gives for this path.
pub uninterp spec fn path_file_name(p: Seq<char>) -> Option<Seq<char>>;

/// What `std::path::Path::parent` gives for this path.
pub uninterp spec fn path_parent(p: Seq<char>) -> Option<Seq<char>>;

/// Relies on `std::path::Path::join`: `tail` adjoined to `base`, where an
/// absolute `tail` replaces `base`; the result depends on the two paths
/// alone. Both are valid UTF-8, so the result converts without loss.
#[verifier::external_body]
pub(crate) fn join_path(base: &str, tail: &str) -> (r: String)
    ensures
        r@ == path_join(base@, tail@),
{
    std::path::Path::new(base).join(tail).to_string_lossy().into_owned()
}

/// Relies on `std::path::Path::file_name`: the final component of the path,
/// if there is one.
#[verifier::external_body]
pub(crate) fn file_name(p: &str) -> (r: Option<String>)
    ensures
        r matches Some(n) ==> path_file_name(p@) == Some(n@),
        r is None ==> path_file_name(p@) is None,
{
    std::path::Path::new(p).file_name().map(|n| n.to_string_lossy().into_owned())
}

/// Relies on `std::path::Path::parent`: the path without its final component,
/// if it has one.
#[verifier::external_body]
pub(crate) fn parent(p: &str) -> (r: Option<String>)
    ensures
        r matches Some(q) ==> path_parent(p@) == Some(q@),
        r is None ==> path_parent(p@) is None,
{
    std::path::Path::new(p).parent().map(|q| q.to_string_lossy().into_owned())
}

/// What `std::path::Path::components` gives for this path, each component
/// as text.
pub uninterp spec fn path_components(p: Seq<char>) -> Seq<Seq<char>>;

/// What collecting these components into a `std::path::PathBuf` gives.
pub uninterp spec fn path_from_components(cs: Seq<Seq<char>>) -> Seq<char>;

/// The plain view of a list of strings.
pub open spec fn strings_view(v: Seq<String>) -> Seq<Seq<char>> {
    v.map_values(|c: String| c@)
}

/// Relies on `std::path::Path::components`: the path split into its root,
/// `.` (only at the start), `..` and named components, with repeated
/// separators and inner `.` dropped.
#[verifier::external_body]
pub(crate) fn components(p: &str) -> (r: Vec<String>)
    ensures
        strings_view(r@) == path_components(p@),
{
    std::path::Path::new(p)
        .components()
        .map(|c| c.as_os_str().to_string_lossy().into_owned())
        .collect()
}

/// Relies on `FromIterator` for `std::path::PathBuf`: the path built by
/// pushing each component in turn.
#[verifier::external_body]
pub(crate) fn from_components(cs: &Vec<String>) -> (r: String)
    ensures
        r@ == path_from_components(strings_view(cs@)),
{
    cs.iter().map(|c| c.as_str()).collect::<std::path::PathBuf>().to_string_lossy().into_owned()
}

} // verus!
