//! The path handle: an immutable value naming a filesystem location by its
//! path string, with no claim that the location exists.

use vstd::prelude::*;

use crate::path_ops::extension_of;
use crate::path_ops::extension_str;
use crate::path_ops::filename_of;
use crate::path_ops::filename_str;
use crate::path_ops::is_absolute_path;
use crate::path_ops::is_absolute_str;
use crate::path_ops::is_relative_str;
use crate::path_ops::parent_of;
use crate::path_ops::parent_str;
use crate::platform::canonicalize_str;
use crate::platform::path_buf_chars;
use crate::platform::path_buf_is_text;
use crate::platform::path_buf_to_string;
use crate::platform::path_exists;
use crate::platform::path_is_dir;
use crate::platform::path_is_executable;
use crate::platform::path_is_file;
use crate::platform::path_is_symlink;
use crate::platform::pb;

verus! {

/// An immutable handle to a filesystem location, held as a plain Unix-style
/// path string. Constructing one asserts nothing about the disk: every
/// query below asks the platform, or inspects the string, when called.
pub struct File {
    path: String,
}

impl View for File {
    type V = Seq<char>;

    closed spec fn view(&self) -> Seq<char> {
        self.path@
    }
}

impl File {
    /// A handle on the given path string.
    pub fn new(name: &str) -> (r: Self)
        ensures
            r@ == name@,
    {
        File { path: name.to_owned() }
    }

    /// A handle on the text of a std path value — present exactly when the
    /// value holds valid text, absent otherwise.
    pub fn from_path_buf(p: std::path::PathBuf) -> (r: Option<Self>)
        ensures
            r is Some <==> path_buf_is_text(p),
            r matches Some(f) ==> f@ == path_buf_chars(p),
    {
        match path_buf_to_string(p) {
            Some(text) => Some(File { path: text }),
            None => None,
        }
    }

    /// The handle on the trailing component: `File::new("/a/b/c.txt")`
    /// yields `"c.txt"`, and the empty handle when there is none.
    pub fn filename(&self) -> (r: Self)
        ensures
            r@ == filename_of(self@),
    {
        File { path: filename_str(self.path.as_str()) }
    }

    /// The extension of the trailing component, `""` when it has none.
    pub fn ext(&self) -> (r: String)
        ensures
            r@ == extension_of(self@),
    {
        extension_str(self.path.as_str())
    }

    /// The canonical, absolute, symlink-free handle on this location, or
    /// `None` when resolution fails — as when the location does not exist —
    /// or the resolved path is not valid text.
    pub fn canonical(&self) -> (r: Option<File>)
        ensures
            r matches Some(f) ==> f@.len() > 0 && is_absolute_path(f@),
    {
        match canonicalize_str(self.path.as_str()) {
            Some(c) => Some(File { path: c }),
            None => None,
        }
    }

    /// A fresh std path value holding this handle's text, valid by
    /// construction.
    pub fn as_path_buf(&self) -> (r: std::path::PathBuf)
        ensures
            path_buf_chars(r) == self@,
            path_buf_is_text(r),
    {
        pb(self.path.as_str())
    }

    /// This handle's text, borrowed.
    pub fn as_path(&self) -> (r: &str)
        ensures
            r@ == self@,
    {
        self.path.as_str()
    }

    /// This handle's text, copied.
    pub fn to_string(&self) -> (r: String)
        ensures
            r@ == self@,
    {
        self.path.clone()
    }

    /// Whether the location exists on disk; `false` on any error.
    pub fn exists_on_disk(&self) -> bool {
        path_exists(self.path.as_str())
    }

    /// Whether the location is a regular file; `false` on any error.
    pub fn is_file(&self) -> bool {
        path_is_file(self.path.as_str())
    }

    /// Whether the location is a directory; `false` on any error.
    pub fn is_folder(&self) -> bool {
        path_is_dir(self.path.as_str())
    }

    /// Whether the location itself is a symbolic link; `false` on any error.
    pub fn is_symlink(&self) -> bool {
        path_is_symlink(self.path.as_str())
    }

    /// Whether the path is absolute: whether it begins with the separator.
    pub fn is_absolute(&self) -> (r: bool)
        ensures
            r == is_absolute_path(self@),
    {
        is_absolute_str(self.path.as_str())
    }

    /// Whether the path is relative: not absolute.
    pub fn is_relative(&self) -> (r: bool)
        ensures
            r == !is_absolute_path(self@),
    {
        is_relative_str(self.path.as_str())
    }

    /// Whether the location is an executable regular file; `false` on any
    /// error.
    pub fn is_exec(&self) -> bool {
        path_is_executable(self.path.as_str())
    }

    /// The handle on the path without its final component — trailing
    /// separators and `"."` components ignored — or `None` when nothing is
    /// left to remove from (an empty path, or a root).
    pub fn parent(&self) -> (r: Option<File>)
        ensures
            r is Some <==> parent_of(self@) is Some,
            r matches Some(f) ==> parent_of(self@) == Some(f@),
    {
        match parent_str(self.path.as_str()) {
            Some(p) => Some(File { path: p }),
            None => None,
        }
    }
}

} // verus!
