use vstd::prelude::*;

pub mod merge;
pub mod parts;
pub mod reset;
mod std_path;

pub use parts::{ext_of_name, ext_text, last_dot, last_dot_before, name_text, stem_of_name, stem_text};
pub use merge::{kept, keeps, merged};
pub use reset::{reset_plan, reset_steps, EntryKind, ResetStep};
pub use std_path::{components_of, file_name_of, joined, path_separator, texts};

verus! {

/// Convenience accessors on anything that holds a path as text.
pub trait PathExt {
    /// The path as text.
    spec fn path_text(&self) -> Seq<char>;

    /// The whole path as text.
    fn full_str(&self) -> (r: &str)
        ensures
            r@ == self.path_text(),
    ;

    /// The final component, or an empty string when there is none.
    fn name_str(&self) -> (r: &str)
        ensures
            r@ == name_text(self.path_text()),
    ;

    /// The extension of the final component, or an empty string.
    fn ext_str(&self) -> (r: &str)
        ensures
            r@ == ext_text(self.path_text()),
    ;

    /// The final component without its extension, or an empty string.
    fn stem_str(&self) -> (r: &str)
        ensures
            r@ == stem_text(self.path_text()),
    ;

    /// This path's components followed by those of `append`, leaving out
    /// each component of `append` that is empty or begins with a separator,
    /// so that an absolute-looking `append` lands under this path.
    fn merge(&self, append: &str) -> (r: String)
        ensures
            r@ == merged(self.path_text(), append@),
    ;
}

impl PathExt for str {
    open spec fn path_text(&self) -> Seq<char> {
        self@
    }

    fn full_str(&self) -> (r: &str) {
        self
    }

    fn name_str(&self) -> (r: &str) {
        parts::name_of(self)
    }

    fn ext_str(&self) -> (r: &str) {
        parts::ext_of(self)
    }

    fn stem_str(&self) -> (r: &str) {
        parts::stem_of(self)
    }

    fn merge(&self, append: &str) -> (r: String) {
        merge::merge_paths(self, append)
    }
}

impl PathExt for String {
    open spec fn path_text(&self) -> Seq<char> {
        self@
    }

    fn full_str(&self) -> (r: &str) {
        self.as_str()
    }

    fn name_str(&self) -> (r: &str) {
        parts::name_of(self.as_str())
    }

    fn ext_str(&self) -> (r: &str) {
        parts::ext_of(self.as_str())
    }

    fn stem_str(&self) -> (r: &str) {
        parts::stem_of(self.as_str())
    }

    fn merge(&self, append: &str) -> (r: String) {
        merge::merge_paths(self.as_str(), append)
    }
}

} // verus!
