use vstd::prelude::*;

verus! {

/// What `std::path::Path::file_name` gives for a path written as this text:
/// the final component when it is a normal name, and nothing when the path
/// ends in a root, a prefix or `..`.
pub uninterp spec fn file_name_of(p: Seq<char>) -> Option<Seq<char>>;

/// Relies on `std::path::Path::file_name`. A file name cut out of a `&str`
/// is valid text, so the conversion back to `&str` loses nothing.
#[verifier::external_body]
pub(crate) fn file_name<'a>(p: &'a str) -> (r: Option<&'a str>)
    ensures
        match r {
            Some(n) => file_name_of(p@) == Some(n@),
            None => file_name_of(p@) is None,
        },
{
    std::path::Path::new(p).file_name().and_then(|n| n.to_str())
}

/// The texts of a sequence of strings.
pub open spec fn texts(v: Seq<String>) -> Seq<Seq<char>> {
    v.map_values(|s: String| s@)
}

/// What `std::path::Path::iter` yields for a path written as this text, each
/// component as text: a prefix or root first where there is one, then the
/// names, with repeated separators and inner `.` components left out.
pub uninterp spec fn components_of(p: Seq<char>) -> Seq<Seq<char>>;

/// Relies on `std::path::Path::iter`. Each component of a `&str` path is
/// valid text, so the conversion to `String` loses nothing.
#[verifier::external_body]
pub(crate) fn components(p: &str) -> (r: Vec<String>)
    ensures
        texts(r@) == components_of(p@),
{
    std::path::Path::new(p).iter().map(|c| c.to_string_lossy().into_owned()).collect()
}

/// Whether `std::path::is_separator` accepts this character on the platform
/// the library is built for.
pub uninterp spec fn path_separator(c: char) -> bool;

/// Relies on `std::path::is_separator`.
pub assume_specification[ std::path::is_separator ](c: char) -> (r: bool)
    ensures
        r == path_separator(c),
;

/// The text of the path that `std::path::PathBuf` builds by pushing each of
/// these parts in turn.
pub uninterp spec fn joined(parts: Seq<Seq<char>>) -> Seq<char>;

/// Relies on `FromIterator` for `std::path::PathBuf`, which pushes each part
/// in turn. Parts that are valid text give a path that is valid text.
#[verifier::external_body]
pub(crate) fn join(parts: &Vec<String>) -> (r: String)
    ensures
        r@ == joined(texts(parts@)),
{
    parts.iter().collect::<std::path::PathBuf>().to_string_lossy().into_owned()
}

} // verus!
