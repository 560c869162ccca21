//! The trusted boundary to the host platform: filesystem metadata queries,
//! whole-file reads, the executable-permission test, and search-path command
//! resolution.
//!
//! Every function here delegates to the platform and is believed, not
//! proved: what the disk or the environment holds at the moment of a call
//! cannot be pinned down by a contract, so these say only what holds of
//! every outcome.

use vstd::prelude::*;

use crate::path_ops::is_absolute_path;

verus! {

#[verifier::external_type_specification]
#[verifier::external_body]
pub struct ExPathBuf(std::path::PathBuf);

/// The characters of a path value's textual form.
pub uninterp spec fn path_buf_chars(p: std::path::PathBuf) -> Seq<char>;

/// Whether a path value's content is valid text, so that its characters
/// can be had back as a string.
pub uninterp spec fn path_buf_is_text(p: std::path::PathBuf) -> bool;

/// Relies on std's `PathBuf::from`: the fresh path value holds exactly the
/// given text — and, made from a string, it is valid text.
#[verifier::external_body]
pub fn pb(name: &str) -> (r: std::path::PathBuf)
    ensures
        path_buf_chars(r) == name@,
        path_buf_is_text(r),
{
    std::path::PathBuf::from(name)
}

/// Relies on std's `Path::exists`: whether the path points at an existing
/// entity, `false` on any error. The answer depends on the filesystem at the
/// moment of the call, so nothing can be promised of it.
#[verifier::external_body]
pub(crate) fn path_exists(s: &str) -> bool {
    std::path::Path::new(s).exists()
}

/// Relies on std's `Path::is_file`: whether the path points at a regular
/// file (after following symbolic links), `false` on any error.
#[verifier::external_body]
pub(crate) fn path_is_file(s: &str) -> bool {
    std::path::Path::new(s).is_file()
}

/// Relies on std's `Path::is_dir`: whether the path points at a directory
/// (after following symbolic links), `false` on any error.
#[verifier::external_body]
pub(crate) fn path_is_dir(s: &str) -> bool {
    std::path::Path::new(s).is_dir()
}

/// Relies on std's `Path::is_symlink`: whether the path itself is a symbolic
/// link, `false` on any error.
#[verifier::external_body]
pub(crate) fn path_is_symlink(s: &str) -> bool {
    std::path::Path::new(s).is_symlink()
}

/// Relies on the `is_executable` crate: whether the path names an existing
/// regular file whose permissions allow execution, `false` on any error.
#[verifier::external_body]
pub(crate) fn path_is_executable(s: &str) -> bool {
    is_executable::IsExecutable::is_executable(std::path::Path::new(s))
}

/// Relies on std's `Path::canonicalize`: the canonical, absolute form of an
/// existing path, all symbolic links resolved. `None` when resolution fails
/// or the resolved path is not valid text; a canonical path is absolute, so
/// it begins with the separator and is never empty.
#[verifier::external_body]
pub(crate) fn canonicalize_str(s: &str) -> (r: Option<String>)
    ensures
        r matches Some(c) ==> c@.len() > 0 && is_absolute_path(c@),
{
    match std::path::Path::new(s).canonicalize() {
        Ok(p) => p.into_os_string().into_string().ok(),
        Err(_) => None,
    }
}

/// Relies on std's `OsString::into_string`: the path value's own text,
/// returned exactly when the content is valid text and refused otherwise —
/// validity depends on the value alone.
#[verifier::external_body]
pub(crate) fn path_buf_to_string(p: std::path::PathBuf) -> (r: Option<String>)
    ensures
        r is Some <==> path_buf_is_text(p),
        r matches Some(s) ==> s@ == path_buf_chars(p),
{
    p.into_os_string().into_string().ok()
}

/// Relies on `which::which_global`: resolves a command name against the
/// process's configured search path, ignoring the current directory. `Some`
/// holds the matched executable's path when the lookup succeeds and that
/// path is valid text, `None` otherwise; the answer depends on the
/// environment and the disk. A match is a search-path entry joined with the
/// name and checked against the disk, so it is never the empty string — but
/// a relative search-path entry yields a relative match, so no more than
/// nonemptiness is promised.
#[verifier::external_body]
pub(crate) fn which_global_str(s: &str) -> (r: Option<String>)
    ensures
        r matches Some(p) ==> p@.len() > 0,
{
    match which::which_global(s) {
        Ok(p) => p.into_os_string().into_string().ok(),
        Err(_) => None,
    }
}

} // verus!
