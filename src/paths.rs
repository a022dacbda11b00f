//! Path and text helpers over `std::path::Path` and `str`.
//!
//! Paths are handled as UTF-8 strings. What std computes from them (a parent,
//! a file name, an extension, a lower-cased copy) is named by a spec function
//! of the argument, and the helpers below are the only places std is called.
use std::path::Path;
use vstd::prelude::*;

verus! {

/// What `str::to_lowercase` returns for a string.
pub uninterp spec fn lower_of(s: Seq<char>) -> Seq<char>;

/// What `Path::extension` returns for a path, as text.
pub uninterp spec fn extension_of(p: Seq<char>) -> Option<Seq<char>>;

/// What `Path::file_name` returns for a path, as text.
pub uninterp spec fn file_name_of(p: Seq<char>) -> Option<Seq<char>>;

/// What `Path::file_stem` returns for a path, as text.
pub uninterp spec fn file_stem_of(p: Seq<char>) -> Option<Seq<char>>;

/// What `Path::parent` returns for a path, as text.
pub uninterp spec fn parent_of(p: Seq<char>) -> Option<Seq<char>>;

/// What `Path::strip_prefix` returns for a path and a base, as text.
pub uninterp spec fn strip_prefix_of(p: Seq<char>, base: Seq<char>) -> Option<Seq<char>>;

/// Relies on `str::to_lowercase`: the result depends on the characters alone,
/// and the empty string stays empty.
#[verifier::external_body]
pub(crate) fn lowercase(s: &str) -> (r: String)
    ensures
        r@ == lower_of(s@),
        s@.len() == 0 ==> r@.len() == 0,
{
    s.to_lowercase()
}

/// Relies on `Path::extension`: the text after the last dot of the file name,
/// or nothing.
#[verifier::external_body]
pub(crate) fn path_extension(p: &str) -> (r: Option<String>)
    ensures
        match r {
            Some(e) => extension_of(p@) == Some(e@),
            None => extension_of(p@).is_none(),
        },
{
    Path::new(p).extension().map(|e| e.to_string_lossy().into_owned())
}

/// Relies on `Path::file_name`: the last component of the path, or nothing.
#[verifier::external_body]
pub(crate) fn path_file_name(p: &str) -> (r: Option<String>)
    ensures
        match r {
            Some(e) => file_name_of(p@) == Some(e@),
            None => file_name_of(p@).is_none(),
        },
{
    Path::new(p).file_name().map(|e| e.to_string_lossy().into_owned())
}

/// Relies on `Path::file_stem`: the file name without its extension, or nothing.
#[verifier::external_body]
pub(crate) fn path_file_stem(p: &str) -> (r: Option<String>)
    ensures
        match r {
            Some(e) => file_stem_of(p@) == Some(e@),
            None => file_stem_of(p@).is_none(),
        },
{
    Path::new(p).file_stem().map(|e| e.to_string_lossy().into_owned())
}

/// Relies on `Path::parent`: the path without its last component, or nothing.
#[verifier::external_body]
pub(crate) fn path_parent(p: &str) -> (r: Option<String>)
    ensures
        match r {
            Some(e) => parent_of(p@) == Some(e@),
            None => parent_of(p@).is_none(),
        },
{
    Path::new(p).parent().map(|e| e.to_string_lossy().into_owned())
}

/// Relies on `Path::strip_prefix`: the rest of the path when `base` is a
/// prefix of it, component by component, or nothing.
#[verifier::external_body]
pub(crate) fn path_strip_prefix(p: &str, base: &str) -> (r: Option<String>)
    ensures
        match r {
            Some(e) => strip_prefix_of(p@, base@) == Some(e@),
            None => strip_prefix_of(p@, base@).is_none(),
        },
{
    Path::new(p).strip_prefix(base).ok().map(|e| e.to_string_lossy().into_owned())
}

/// Relies on `String::push`: the character is appended.
#[verifier::external_body]
pub(crate) fn push_char(s: &mut String, c: char)
    ensures
        final(s)@ == old(s)@.push(c),
{
    s.push(c)
}

/// The path of the directory holding `p`, relative to `root`; empty when `p`
/// has no parent or its parent is not under `root`.
pub open spec fn relative_dir_of(p: Seq<char>, root: Seq<char>) -> Seq<char> {
    match parent_of(p) {
        Some(dir) => match strip_prefix_of(dir, root) {
            Some(rel) => rel,
            None => Seq::empty(),
        },
        None => Seq::empty(),
    }
}

/// The directory of `path` relative to `root` (see `relative_dir_of`).
pub fn relative_dir(path: &str, root: &str) -> (r: String)
    ensures
        r@ == relative_dir_of(path@, root@),
{
    match path_parent(path) {
        Some(dir) => match path_strip_prefix(dir.as_str(), root) {
            Some(rel) => rel,
            None => String::new(),
        },
        None => String::new(),
    }
}

} // verus!
