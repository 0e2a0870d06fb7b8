//! Validated operating-system launch targets.

use vstd::prelude::*;

use crate::chars::{trim, trim_chars};
use crate::config::file::opt_text;
use crate::text::{chars_of, string_from_chars};

verus! {

/// Why an application launch target could not be constructed.
#[derive(Clone, Copy, Debug, PartialEq, Eq, Structural)]
pub enum ApplicationTargetError {
    /// The launch path or URL was blank.
    EmptyPath,
}

/// Validated application, folder, filesystem, or URL target: a non-blank
/// trimmed path and a non-empty display name.
#[derive(Clone, Debug, PartialEq, Eq, Hash)]
pub struct ApplicationTarget {
    path: String,
    display_name: String,
}

/// Whether `part` occurs in `s` as a contiguous run.
pub open spec fn is_part_of(part: Seq<char>, s: Seq<char>) -> bool {
    exists|i: int, j: int| 0 <= i <= j <= s.len() && s.subrange(i, j) == part
}

/// The characters after the last `/` of `s` (all of `s` when it has none).
pub open spec fn last_segment(s: Seq<char>) -> Seq<char>
    decreases s.len(),
{
    if s.len() == 0 {
        s
    } else if s.last() == '/' {
        Seq::empty()
    } else {
        last_segment(s.drop_last()).push(s.last())
    }
}

/// Whether `s` is a path whose components are separated by `/` alone on
/// every platform, and whose last component is a plain file name: no `\\`,
/// no `:` (so no Windows drive or verbatim prefix), no leading `//` (no UNC
/// share), and a last segment that is neither empty, `.` nor `..`.
pub open spec fn is_slash_path(s: Seq<char>) -> bool {
    &&& forall|i: int| 0 <= i < s.len() ==> #[trigger] s[i] != '\\' && s[i] != ':'
    &&& !(s.len() >= 2 && s[0] == '/' && s[1] == '/')
    &&& last_segment(s).len() > 0
    &&& last_segment(s) != "."@
    &&& last_segment(s) != ".."@
}

/// The characters of `s` before its last `.`, if it has one.
pub open spec fn before_last_dot(s: Seq<char>) -> Option<Seq<char>>
    decreases s.len(),
{
    if s.len() == 0 {
        None
    } else if s.last() == '.' {
        Some(s.drop_last())
    } else {
        before_last_dot(s.drop_last())
    }
}

/// The stem of a file name, as `Path::file_stem` documents it: the part
/// before the final `.`, or the whole name when it has no `.` or only a
/// leading one.
pub open spec fn spec_file_stem(name: Seq<char>) -> Seq<char> {
    match before_last_dot(name) {
        Some(b) => if b.len() > 0 { b } else { name },
        None => name,
    }
}

/// The stem of the last component of a path (`Path::file_stem`).
///
/// The stem is cut from the path itself, so it is always a contiguous part of
/// it. For a path separated by `/` alone with a plain last component, the
/// documentation fixes it: the file name is the last segment and the stem is
/// its part before the final `.` (the whole name when there is none, or
/// only a leading one). Other paths follow platform rules not restated here.
#[verifier::external_body]
fn file_stem_of(path: &str) -> (stem: Option<String>)
    ensures
        stem matches Some(s) ==> is_part_of(s@, path@),
        is_slash_path(path@) ==> opt_text(stem) == Some(spec_file_stem(last_segment(path@))),
{
    let stem = std::path::Path::new(path).file_stem()?;
    let text = stem.to_str()?;
    Some(text.to_string())
}

/// The stem of a non-empty name is not empty.
proof fn lemma_stem_not_empty(name: Seq<char>)
    requires
        name.len() > 0,
    ensures
        spec_file_stem(name).len() > 0,
{
}

impl ApplicationTarget {
    /// The launch path or URL.
    pub closed spec fn spec_path(self) -> Seq<char> {
        self.path@
    }

    /// The name shown for the target.
    pub closed spec fn spec_display_name(self) -> Seq<char> {
        self.display_name@
    }

    /// Validate a platform path or URL and its user-facing name: the path
    /// is trimmed and must not be blank; a blank name falls back to the
    /// path's file stem, or to the path itself when it has none.
    pub fn new(path: &str, display_name: &str) -> (r: Result<Self, ApplicationTargetError>)
        ensures
            trim(path@).len() == 0 <==> r is Err,
            r matches Err(e) ==> e == ApplicationTargetError::EmptyPath,
            r matches Ok(t) ==> {
                &&& t.spec_path() == trim(path@)
                &&& trim(display_name@).len() > 0 ==> t.spec_display_name() == trim(display_name@)
                &&& trim(display_name@).len() == 0 ==> is_part_of(t.spec_display_name(), trim(path@))
                &&& (trim(display_name@).len() == 0 && is_slash_path(trim(path@)))
                    ==> t.spec_display_name() == spec_file_stem(last_segment(trim(path@)))
                &&& t.spec_display_name().len() > 0
            },
    {
        let path_chars = chars_of(path);
        let trimmed = trim_chars(path_chars.as_slice());
        if trimmed.len() == 0 {
            return Err(ApplicationTargetError::EmptyPath);
        }
        let path = string_from_chars(trimmed.as_slice());
        let name_chars = chars_of(display_name);
        let name = trim_chars(name_chars.as_slice());
        let display_name = if name.len() == 0 {
            proof {
                if is_slash_path(path@) {
                    lemma_stem_not_empty(last_segment(path@));
                }
            }
            match file_stem_of(path.as_str()) {
                Some(stem) if stem.as_str().unicode_len() > 0 => stem,
                _ => {
                    proof {
                        assert(path@.subrange(0, path@.len() as int) =~= path@);
                    }
                    path.clone()
                },
            }
        } else {
            string_from_chars(name.as_slice())
        };
        Ok(ApplicationTarget { path, display_name })
    }

    /// Platform path or URL passed to the operating system.
    pub fn path(&self) -> (s: &str)
        ensures
            s@ == self.spec_path(),
    {
        self.path.as_str()
    }

    /// Name displayed in configuration and overlay UI.
    pub fn display_name(&self) -> (s: &str)
        ensures
            s@ == self.spec_display_name(),
    {
        self.display_name.as_str()
    }
}

} // verus!
