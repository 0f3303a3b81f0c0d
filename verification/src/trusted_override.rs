//! Trusted Override Resolver: an environment-supplied runtime path is
//! honored only when it is set, absolute, and exists on disk. A relative or
//! missing path must not silently become a command to execute.

use vstd::prelude::*;
use vstd::string::StrSliceExecFns;
use crate::config::Platform;

verus! {

/// What this library counts as an absolute path. On Unix a path is absolute
/// exactly when it starts with `/`. On Windows it must start with a UNC
/// prefix `\\` or a drive letter followed by `:` and a separator.
pub open spec fn spec_is_absolute(p: Platform, path: Seq<char>) -> bool {
    match p {
        Platform::Unix => path.len() >= 1 && path[0] == '/',
        Platform::Windows => {
            ||| (path.len() >= 2 && path[0] == '\\' && path[1] == '\\')
            ||| (path.len() >= 3 && spec_is_drive_letter(path[0]) && path[1] == ':'
                && (path[2] == '\\' || path[2] == '/'))
        },
    }
}

pub open spec fn spec_is_drive_letter(c: char) -> bool {
    ||| ('a' as u32) <= (c as u32) <= ('z' as u32)
    ||| ('A' as u32) <= (c as u32) <= ('Z' as u32)
}

fn is_drive_letter(c: char) -> (r: bool)
    ensures
        r == spec_is_drive_letter(c),
{
    let n = c as u32;
    (('a' as u32) <= n && n <= ('z' as u32)) || (('A' as u32) <= n && n <= ('Z' as u32))
}

/// Decide absoluteness of `path` under `p`'s conventions.
pub fn is_absolute(p: Platform, path: &str) -> (r: bool)
    ensures
        r == spec_is_absolute(p, path@),
{
    let n = path.unicode_len();
    match p {
        Platform::Unix => n >= 1 && path.get_char(0) == '/',
        Platform::Windows => {
            if n >= 2 && path.get_char(0) == '\\' && path.get_char(1) == '\\' {
                true
            } else if n >= 3 {
                is_drive_letter(path.get_char(0)) && path.get_char(1) == ':'
                    && (path.get_char(2) == '\\' || path.get_char(2) == '/')
            } else {
                false
            }
        }
    }
}

/// The override is accepted: the variable is set to an absolute path that
/// exists on disk.
pub open spec fn spec_override_accepted(
    p: Platform,
    value: Option<String>,
    exists: bool,
) -> bool {
    &&& value is Some
    &&& spec_is_absolute(p, value->0@)
    &&& exists
}

/// Resolve the trusted override. `value` is the raw environment variable (or
/// nothing when unset); `exists` is the host's existence check for the named
/// path (ignored when the variable is unset). Produces the path only for an
/// absolute, existing one; an unset variable, a relative path, and a missing
/// path all produce nothing, none of them an error.
pub fn resolve_override(p: Platform, value: Option<String>, exists: bool) -> (r: Option<String>)
    ensures
        r is Some <==> spec_override_accepted(p, value, exists),
        r is Some ==> r->0@ == value->0@,
{
    match value {
        Option::None => Option::None,
        Option::Some(v) => {
            if is_absolute(p, v.as_str()) && exists {
                Option::Some(v)
            } else {
                Option::None
            }
        }
    }
}

} // verus!
