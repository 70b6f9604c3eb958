//! The path operations of std that the builders need, each behind a trusted wrapper.
//!
//! Paths travel through the library as UTF-8 text. What `std::path` makes of them
//! is given a name here and is not restated: the names below are functions of
//! their arguments alone, and the rest of the library is proved against them.

use vstd::prelude::*;

verus! {

/// The text of `base` with `rel` adjoined by `std::path::Path::join`.
pub uninterp spec fn path_joined(base: Seq<char>, rel: Seq<char>) -> Seq<char>;

/// The text of `path` after `std::path::PathBuf::set_extension(ext)`.
pub uninterp spec fn path_with_extension(path: Seq<char>, ext: Seq<char>) -> Seq<char>;

/// The extension of `path` as `std::path::Path::extension` finds it, if any.
pub uninterp spec fn path_extension(path: Seq<char>) -> Option<Seq<char>>;

/// The `Debug` rendering of a path whose text is `path`.
pub uninterp spec fn path_debug(path: Seq<char>) -> Seq<char>;

/// Calls `std::path::Path::join`: `base` with `rel` adjoined. Claims only that the
/// result is `path_joined` of the two texts; the joining rule itself is std's.
/// Both texts are UTF-8, so the joined path is too and its text is exact.
#[verifier::external_body]
pub(crate) fn join_path(base: &str, rel: &str) -> (res: String)
    ensures
        res@ == path_joined(base@, rel@),
{
    std::path::Path::new(base).join(rel).to_string_lossy().into_owned()
}

/// Calls `std::path::PathBuf::set_extension` on `path`. `set_extension` panics on an
/// extension holding a path separator, so `ext` may hold neither `/` nor a backslash.
/// Claims that the result is `path_with_extension` of the two texts, and, as std
/// documents it, that a non-empty extension without dots either leaves a path that
/// has no file name unchanged or becomes the path's extension. Where in the path
/// the extension lands is not stated.
#[verifier::external_body]
pub(crate) fn replace_extension(path: &str, ext: &str) -> (res: String)
    requires
        forall|i: int| 0 <= i < ext@.len() ==> ext@[i] != '/' && ext@[i] != '\\',
    ensures
        res@ == path_with_extension(path@, ext@),
        ext@.len() > 0 && !ext@.contains('.') ==> res@ == path@ || path_extension(res@) == Some(ext@),
{
    let mut buf = std::path::PathBuf::from(path);
    buf.set_extension(ext);
    buf.to_string_lossy().into_owned()
}

/// Calls `std::path::Path::extension` on `path`. Claims only that the result,
/// taken as text, is `path_extension` of `path`.
#[verifier::external_body]
pub(crate) fn extension_of(path: &str) -> (res: Option<String>)
    ensures
        res.deep_view() == path_extension(path@),
{
    let ext = std::path::Path::new(path).extension()?;
    Some(ext.to_string_lossy().into_owned())
}

/// Formats `std::path::Path::new(path)` with `{:?}`. Claims only that the result
/// is `path_debug` of `path`.
#[verifier::external_body]
pub(crate) fn debug_path(path: &str) -> (res: String)
    ensures
        res@ == path_debug(path@),
{
    format!("{:?}", std::path::Path::new(path))
}

} // verus!
