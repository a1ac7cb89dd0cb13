//! Paths are carried as strings; joining and naming them is left to `std::path`.
use vstd::prelude::*;

verus! {

/// The path that `std::path::Path::join` makes of `base` and `child`, as text.
pub uninterp spec fn joined_path(base: Seq<char>, child: Seq<char>) -> Seq<char>;

/// The final component of `path` as `std::path::Path::file_name` finds it, as text.
pub uninterp spec fn path_file_name(path: Seq<char>) -> Option<Seq<char>>;

/// Calls `std::path::Path::join` on `base` and `child`.
///
/// Claimed of it: the result is the one named by [`joined_path`]. The separator that `std`
/// inserts is fixed by the target the crate is built for, so for one build the result is a
/// function of the two arguments alone. Both arguments are UTF-8, so the lossless text
/// conversion of the joined path loses nothing.
#[verifier::external_body]
pub(crate) fn join_path(base: &str, child: &str) -> (p: String)
    ensures
        p@ == joined_path(base@, child@),
{
    std::path::Path::new(base).join(child).to_string_lossy().into_owned()
}

/// Calls `std::path::Path::file_name` on `path`.
///
/// Claimed of it: the result is the one named by [`path_file_name`]; the name of a UTF-8
/// path is UTF-8, so the text conversion loses nothing.
#[verifier::external_body]
pub(crate) fn file_name(path: &str) -> (n: Option<String>)
    ensures
        n.deep_view() == path_file_name(path@),
{
    std::path::Path::new(path).file_name().map(|n| n.to_string_lossy().into_owned())
}

/// The components that `std::path::Path::components` splits `path` into, each as text.
pub uninterp spec fn path_component_names(path: Seq<char>) -> Seq<Seq<char>>;

/// Calls `std::path::Path::components` on `path`, each component taken as text.
///
/// Claimed of it: the result is the one named by [`path_component_names`]; the components of
/// a UTF-8 path are UTF-8, so the text conversion loses nothing.
#[verifier::external_body]
pub(crate) fn path_components(path: &str) -> (c: Vec<String>)
    ensures
        c@.map_values(|s: String| s@) == path_component_names(path@),
{
    std::path::Path::new(path).components().map(|c| c.as_os_str().to_string_lossy().into_owned()).collect()
}

} // verus!
