//! Wording for a change that landed and then hit a problem of its own, so a
//! completed change is never reported as one that never happened.

use vstd::prelude::*;
use crate::path::{finding_display, DisplayBase};
use crate::text::{owned, push_str};

verus! {

/// The change that finished before the trouble started.
#[derive(Debug, Clone, Copy, PartialEq, Eq, Structural)]
pub enum CompletedChange {
    Written,
    Removed,
}

pub open spec fn change_phrase(change: CompletedChange) -> Seq<char> {
    match change {
        CompletedChange::Written => "was written"@,
        CompletedChange::Removed => "was removed"@,
    }
}

impl CompletedChange {
    pub fn phrase(self) -> (r: &'static str)
        ensures
            r@ == change_phrase(self),
    {
        match self {
            CompletedChange::Written => "was written",
            CompletedChange::Removed => "was removed",
        }
    }
}

/// Say that `subject` reached `path` before `condition` went wrong:
/// `{subject} {path} {phrase}, but {condition}: {detail}`.
pub fn format_post_change_failure(
    base: &DisplayBase,
    subject: &str,
    path: &str,
    change: CompletedChange,
    condition: &str,
    detail: &str,
) -> (r: String)
    ensures
        r@ == subject@ + seq![' '] + finding_display(base.cwd(), path@) + seq![' '] + change_phrase(
            change,
        ) + ", but "@ + condition@ + ": "@ + detail@,
{
    let mut out = owned(subject);
    push_str(&mut out, " ");
    push_str(&mut out, base.finding(path).as_str());
    push_str(&mut out, " ");
    push_str(&mut out, change.phrase());
    push_str(&mut out, ", but ");
    push_str(&mut out, condition);
    push_str(&mut out, ": ");
    push_str(&mut out, detail);
    proof {
        reveal_strlit(" ");
    }
    out
}

} // verus!
