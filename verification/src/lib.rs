//! String-centric helpers for filesystem paths: querying a path's trailing
//! component, extension, parent and kind, resolving a command on the search
//! path, and reading a file's lines, together with a small string-coercion
//! layer that turns optional string-like values into plain strings.

use vstd::prelude::*;

pub mod file;
pub mod path_ops;
pub mod platform;
pub mod strings;

pub use crate::strings::OwnedUnwrapToString;
pub use crate::strings::UnwrapToString;

use crate::path_ops::extension_of;
use crate::path_ops::extension_str;
use crate::path_ops::filename_of;
use crate::path_ops::filename_str;
use crate::path_ops::is_absolute_path;
use crate::path_ops::is_absolute_str;
use crate::path_ops::is_relative_str;
use crate::path_ops::parent_of;
use crate::path_ops::parent_str;
use crate::platform::canonicalize_str;
use crate::platform::path_buf_chars;
use crate::platform::path_buf_is_text;
use crate::platform::path_exists;
use crate::platform::path_is_dir;
use crate::platform::path_is_executable;
use crate::platform::path_is_file;
use crate::platform::path_is_symlink;
use crate::platform::pb;
use crate::platform::which_global_str;

verus! {

/// Filesystem queries attached to a string-like path value: each method
/// reads the path's characters through `path_view` and either inspects them
/// directly or asks the platform about the location they name.
pub trait FileAPI {
    /// The path's characters.
    spec fn path_view(&self) -> Seq<char>;

    /// The trailing path component, `""` when there is none.
    fn filename(&self) -> (r: String)
        ensures
            r@ == filename_of(self.path_view()),
    ;

    /// The extension of the trailing component, `""` when it has none.
    fn ext(&self) -> (r: String)
        ensures
            r@ == extension_of(self.path_view()),
    ;

    /// The canonical, absolute, symlink-free form of an existing path, or
    /// `None` when resolution fails or the result is not valid text.
    fn canonical(&self) -> (r: Option<String>)
        ensures
            r matches Some(c) ==> c@.len() > 0 && is_absolute_path(c@),
    ;

    /// A fresh std path value holding this path's text, valid by
    /// construction.
    fn to_path_buf(&self) -> (r: std::path::PathBuf)
        ensures
            path_buf_chars(r) == self.path_view(),
            path_buf_is_text(r),
    ;

    /// Whether the location exists on disk; `false` on any error.
    fn exists_on_disk(&self) -> bool;

    /// Whether the location is a regular file; `false` on any error.
    fn is_file(&self) -> bool;

    /// Whether the location is a directory; `false` on any error.
    fn is_folder(&self) -> bool;

    /// Whether the location itself is a symbolic link; `false` on any error.
    fn is_symlink(&self) -> bool;

    /// Whether the path is absolute: whether it begins with the separator.
    fn is_absolute(&self) -> (r: bool)
        ensures
            r == is_absolute_path(self.path_view()),
    ;

    /// Whether the path is relative: not absolute.
    fn is_relative(&self) -> (r: bool)
        ensures
            r == !is_absolute_path(self.path_view()),
    ;

    /// Whether the location is an executable regular file; `false` on any
    /// error.
    fn is_exec(&self) -> bool;

    /// The path of the executable this command name resolves to on the
    /// configured search path, or `None` when it resolves to nothing. A
    /// match is never empty; it is usually absolute, but a relative
    /// search-path entry yields a relative match, so no more is promised.
    fn which(&self) -> (r: Option<String>)
        ensures
            r matches Some(p) ==> p@.len() > 0,
    ;

    /// The path without its final component — trailing separators and
    /// `"."` components ignored — or `None` when nothing is left to remove
    /// from (an empty path, or a root).
    fn parent(&self) -> (r: Option<String>)
        ensures
            r is Some <==> parent_of(self.path_view()) is Some,
            r matches Some(q) ==> parent_of(self.path_view()) == Some(q@),
    ;
}

impl FileAPI for String {
    open spec fn path_view(&self) -> Seq<char> {
        self@
    }

    fn filename(&self) -> (r: String) {
        filename_str(self.as_str())
    }

    fn ext(&self) -> (r: String) {
        extension_str(self.as_str())
    }

    fn canonical(&self) -> (r: Option<String>) {
        canonicalize_str(self.as_str())
    }

    fn to_path_buf(&self) -> (r: std::path::PathBuf) {
        pb(self.as_str())
    }

    fn exists_on_disk(&self) -> bool {
        path_exists(self.as_str())
    }

    fn is_file(&self) -> bool {
        path_is_file(self.as_str())
    }

    fn is_folder(&self) -> bool {
        path_is_dir(self.as_str())
    }

    fn is_symlink(&self) -> bool {
        path_is_symlink(self.as_str())
    }

    fn is_absolute(&self) -> (r: bool) {
        is_absolute_str(self.as_str())
    }

    fn is_relative(&self) -> (r: bool) {
        is_relative_str(self.as_str())
    }

    fn is_exec(&self) -> bool {
        path_is_executable(self.as_str())
    }

    fn which(&self) -> Option<String> {
        which_global_str(self.as_str())
    }

    fn parent(&self) -> (r: Option<String>) {
        parent_str(self.as_str())
    }
}

impl FileAPI for &str {
    open spec fn path_view(&self) -> Seq<char> {
        (*self)@
    }

    fn filename(&self) -> (r: String) {
        filename_str(self)
    }

    fn ext(&self) -> (r: String) {
        extension_str(self)
    }

    fn canonical(&self) -> (r: Option<String>) {
        canonicalize_str(self)
    }

    fn to_path_buf(&self) -> (r: std::path::PathBuf) {
        pb(self)
    }

    fn exists_on_disk(&self) -> bool {
        path_exists(self)
    }

    fn is_file(&self) -> bool {
        path_is_file(self)
    }

    fn is_folder(&self) -> bool {
        path_is_dir(self)
    }

    fn is_symlink(&self) -> bool {
        path_is_symlink(self)
    }

    fn is_absolute(&self) -> (r: bool) {
        is_absolute_str(self)
    }

    fn is_relative(&self) -> (r: bool) {
        is_relative_str(self)
    }

    fn is_exec(&self) -> bool {
        path_is_executable(self)
    }

    fn which(&self) -> Option<String> {
        which_global_str(self)
    }

    fn parent(&self) -> (r: Option<String>) {
        parent_str(self)
    }
}

} // verus!
