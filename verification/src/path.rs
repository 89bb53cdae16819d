//! Path rendering for messages an operator reads: a path shortened against
//! the working directory, with control characters spelled out.

use vstd::prelude::*;
use crate::display::{escape_text, format_path_for_message};
use crate::text::owned;

verus! {

/// What `std::path::Path::strip_prefix` leaves of `path` once the components
/// of `base` are removed from its front, or nothing when `base` is not a
/// prefix of it.
pub uninterp spec fn stripped_path(path: Seq<char>, base: Seq<char>) -> Option<Seq<char>>;

/// Calls `std::path::Path::strip_prefix`. The result is named by
/// `stripped_path`; the standard library documents that it fails exactly when
/// `base` is not a component-wise prefix of `path` (`starts_with` is false).
/// The remainder of a UTF-8 path is UTF-8, so converting it back loses nothing.
#[verifier::external_body]
pub(crate) fn strip_path_prefix(path: &str, base: &str) -> (r: Option<String>)
    ensures
        match stripped_path(path@, base@) {
            Some(rest) => r matches Some(s) && s@ == rest,
            None => r is None,
        },
{
    match std::path::Path::new(path).strip_prefix(base) {
        Ok(rest) => Some(rest.to_string_lossy().into_owned()),
        Err(_) => None,
    }
}

/// The working directory findings are phrased against.
pub struct DisplayBase {
    cwd: Option<String>,
}

/// `path` shortened against `cwd` when it lies below it; the directory itself
/// is spelled `.` rather than as an empty string.
pub open spec fn relative_display(cwd: Option<Seq<char>>, path: Seq<char>) -> Seq<char> {
    match cwd {
        Some(base) => match stripped_path(path, base) {
            Some(rest) => if rest.len() == 0 {
                seq!['.']
            } else {
                rest
            },
            None => path,
        },
        None => path,
    }
}

/// A path named inside a finding: the relative form, except that the working
/// directory itself is named in full, with control characters escaped.
pub open spec fn finding_display(cwd: Option<Seq<char>>, path: Seq<char>) -> Seq<char> {
    let relative = relative_display(cwd, path);
    escape_text(if relative == seq!['.'] { path } else { relative })
}

impl DisplayBase {
    /// The working directory this base phrases paths against, if one could be
    /// read.
    pub closed spec fn cwd(self) -> Option<Seq<char>> {
        match self.cwd {
            Some(c) => Some(c@),
            None => None,
        }
    }

    /// A base for the working directory the caller read once, up front.
    pub fn from_cwd(cwd: Option<String>) -> (b: DisplayBase)
        ensures
            b.cwd() == (match cwd {
                Some(c) => Some(c@),
                None => None::<Seq<char>>,
            }),
    {
        DisplayBase { cwd }
    }

    /// Shorten a path against the directory this base holds.
    pub fn relative(&self, path: &str) -> (r: String)
        ensures
            r@ == relative_display(self.cwd(), path@),
    {
        if let Some(cwd) = &self.cwd {
            if let Some(relative) = strip_path_prefix(path, cwd.as_str()) {
                return non_empty_display(relative.as_str());
            }
        }
        owned(path)
    }

    /// Name a path inside a finding, spelling out what a terminal would act on.
    pub fn finding(&self, path: &str) -> (r: String)
        ensures
            r@ == finding_display(self.cwd(), path@),
    {
        let relative = self.relative(path);
        if is_current_dir(relative.as_str()) {
            format_path_for_message(path)
        } else {
            format_path_for_message(relative.as_str())
        }
    }
}

fn is_current_dir(s: &str) -> (r: bool)
    ensures
        r == (s@ == seq!['.']),
{
    let mut chars = s.chars();
    match chars.next() {
        Some(c) => {
            if c != '.' {
                return false;
            }
            match chars.next() {
                Some(_) => false,
                None => {
                    proof {
                        assert(s@ =~= seq!['.']);
                    }
                    true
                },
            }
        },
        None => false,
    }
}

/// Display a path relative to the working directory `cwd` when possible,
/// falling back to the path as given.
pub fn format_path_relative_to_cwd(path: &str, cwd: Option<String>) -> (r: String)
    ensures
        r@ == relative_display(
            match cwd {
                Some(c) => Some(c@),
                None => None::<Seq<char>>,
            },
            path@,
        ),
{
    DisplayBase::from_cwd(cwd).relative(path)
}

/// Name a path inside a finding the operator has to act on.
pub fn format_finding_path(path: &str, cwd: Option<String>) -> (r: String)
    ensures
        r@ == finding_display(
            match cwd {
                Some(c) => Some(c@),
                None => None::<Seq<char>>,
            },
            path@,
        ),
{
    DisplayBase::from_cwd(cwd).finding(path)
}

fn non_empty_display(path: &str) -> (r: String)
    ensures
        r@ == (if path@.len() == 0 {
            seq!['.']
        } else {
            path@
        }),
{
    if path.is_empty() {
        let r = owned(".");
        proof {
            reveal_strlit(".");
        }
        return r;
    }
    owned(path)
}

/// Name the current directory where an empty path would otherwise stand.
pub fn path_or_current_dir(path: &str) -> (r: String)
    ensures
        r@ == (if path@.len() == 0 {
            seq!['.']
        } else {
            path@
        }),
{
    non_empty_display(path)
}

} // verus!
