use vstd::prelude::*;

verus! {

/// What `Path::parent` gives for a path, in the path syntax of the
/// platform the library is built for: the path without its final
/// component, or `None` for a root, a prefix or the empty path.
pub uninterp spec fn parent_of(path: Seq<char>) -> Option<Seq<char>>;

/// The parent directory of a path (`Path::parent`).
#[verifier::external_body]
pub fn parent_dir(path: &str) -> (r: Option<String>)
    ensures
        r matches Some(p) ==> parent_of(path@) == Some(p@),
        r is None ==> parent_of(path@) is None,
{
    std::path::Path::new(path).parent().map(|p| p.to_string_lossy().into_owned())
}

/// What `Path::extension` gives for a path, in the path syntax of the
/// platform the library is built for: the part of the file name after its
/// last dot, if any (none for a name that only starts with a dot).
pub uninterp spec fn extension_of(path: Seq<char>) -> Option<Seq<char>>;

/// The extension of a path's file name (`Path::extension`).
#[verifier::external_body]
pub fn extension(path: &str) -> (r: Option<String>)
    ensures
        r matches Some(e) ==> extension_of(path@) == Some(e@),
        r is None ==> extension_of(path@) is None,
{
    std::path::Path::new(path).extension().map(|e| e.to_string_lossy().into_owned())
}

/// What `Path::file_stem` gives for a path, in the path syntax of the
/// platform the library is built for: the file name without its
/// extension, if there is a file name.
pub uninterp spec fn file_stem_of(path: Seq<char>) -> Option<Seq<char>>;

/// The stem of a path's file name (`Path::file_stem`).
#[verifier::external_body]
pub fn file_stem(path: &str) -> (r: Option<String>)
    ensures
        r matches Some(s) ==> file_stem_of(path@) == Some(s@),
        r is None ==> file_stem_of(path@) is None,
{
    std::path::Path::new(path).file_stem().map(|s| s.to_string_lossy().into_owned())
}

} // verus!
