//! Permission rules for local state entries: what an entry's owner and mode
//! make it, and the findings a walk over the tree reports.

use vstd::prelude::*;
use crate::display::{escape_text, format_path_for_message};
use crate::path::{finding_display, DisplayBase};
use crate::shell::{append_repair_command, format_repair_command, names_absolute_repair};
use crate::text::{format_decimal, format_octal4, owned, push_str};

verus! {

/// What makes one local state entry unsafe for its owner.
#[derive(Debug, Clone, Copy, PartialEq, Eq, Structural)]
pub enum PermissionViolationKind {
    InsecureMode,
    ForeignOwner,
    Unreadable,
    UndecodableName,
    UnexpectedEntryType,
    ReplacedEntry,
    InsecureAncestor,
    UnreadableAncestor,
    UnresolvableAncestry,
    IncompleteScan,
}

/// One local state entry another account can reach, described for the operator.
#[derive(Debug, Clone)]
pub struct PermissionViolation {
    pub path: String,
    pub kind: PermissionViolationKind,
    pub message: String,
}

impl PermissionViolation {
    pub fn new(path: &str, kind: PermissionViolationKind, message: String) -> (v: PermissionViolation)
        ensures
            v.path@ == path@,
            v.kind == kind,
            v.message@ == message@,
    {
        PermissionViolation { path: owned(path), kind, message }
    }

    pub fn path(&self) -> (p: &str)
        ensures
            p@ == self.path@,
    {
        self.path.as_str()
    }

    pub fn kind(&self) -> (k: PermissionViolationKind)
        ensures
            k == self.kind,
    {
        self.kind
    }

    pub fn message(&self) -> (m: &str)
        ensures
            m@ == self.message@,
    {
        self.message.as_str()
    }
}

/// The owner and mode of one entry, whichever call read them.
#[derive(Debug, Clone, Copy, PartialEq, Eq, Structural)]
pub struct EntryFacts {
    pub owner: u32,
    pub mode: u32,
    pub is_dir: bool,
}

impl EntryFacts {
    pub fn new(owner: u32, mode: u32, is_dir: bool) -> (f: EntryFacts)
        ensures
            f == (EntryFacts { owner, mode, is_dir }),
    {
        EntryFacts { owner, mode, is_dir }
    }
}

/// Permission bits that let group or other reach an entry.
pub const GROUP_OTHER_BITS: u32 = 0o077;

/// Write bits that let a different user create or replace entries.
pub const GROUP_OTHER_WRITE_BITS: u32 = 0o022;

/// Bit that stops a non-owner from renaming or deleting entries it does not own.
pub const STICKY_BIT: u32 = 0o1000;

/// Local state nests at most `<root>/keys/<member>/<kid>/<file>`, with room
/// for one unexpected level.
pub const MAX_LOCAL_STATE_TREE_DEPTH: usize = 6;

/// Upper bound on the entries one tree walk inspects.
pub const MAX_LOCAL_STATE_TREE_ENTRIES: usize = 1024;

/// What an entry's owner and mode make it: a foreign owner is judged first,
/// then any group or other permission bit.
pub open spec fn entry_verdict(facts: EntryFacts, effective_uid: u32) -> Option<
    PermissionViolationKind,
> {
    if facts.owner != effective_uid {
        Some(PermissionViolationKind::ForeignOwner)
    } else if facts.mode & GROUP_OTHER_BITS == 0 {
        None
    } else {
        Some(PermissionViolationKind::InsecureMode)
    }
}

/// Owner-only mode a local state entry must carry.
pub fn expected_mode(is_dir: bool) -> (m: &'static str)
    ensures
        m@ == (if is_dir { "0700"@ } else { "0600"@ }),
{
    if is_dir {
        "0700"
    } else {
        "0600"
    }
}

fn describe_violation(base: &DisplayBase, mode: u32, is_dir: bool, display_path: &str) -> (v:
    PermissionViolation)
    ensures
        v.kind == PermissionViolationKind::InsecureMode,
        v.path@ == display_path@,
{
    let expected = expected_mode(is_dir);
    let mut explanation = owned("Insecure permissions ");
    push_str(&mut explanation, format_octal4(mode).as_str());
    push_str(&mut explanation, " on ");
    push_str(&mut explanation, base.finding(display_path).as_str());
    push_str(&mut explanation, " (expected ");
    push_str(&mut explanation, expected);
    push_str(&mut explanation, ")");
    let mut command = owned("chmod ");
    push_str(&mut command, expected);
    PermissionViolation::new(
        display_path,
        PermissionViolationKind::InsecureMode,
        append_repair_command(explanation.as_str(), command.as_str(), display_path),
    )
}

/// Report an entry a different user owns: owner-only permissions say nothing
/// when the owner can change them back whenever they like.
fn describe_foreign_owner(base: &DisplayBase, owner: u32, is_dir: bool, display_path: &str) -> (v:
    PermissionViolation)
    ensures
        v.kind == PermissionViolationKind::ForeignOwner,
        v.path@ == display_path@,
{
    let subject = if is_dir { "directory" } else { "file" };
    let mut message = owned("Local state ");
    push_str(&mut message, subject);
    push_str(&mut message, " ");
    push_str(&mut message, base.finding(display_path).as_str());
    push_str(&mut message, " is owned by uid ");
    push_str(&mut message, format_decimal(owner as u64).as_str());
    push_str(
        &mut message,
        ", not by the current user; move local state somewhere you own, or select another local state root with --home or KAPSARO_HOME",
    );
    PermissionViolation::new(display_path, PermissionViolationKind::ForeignOwner, message)
}

/// Report an entry whose mode could not be read, so that it never passes as safe.
pub fn describe_unreadable(base: &DisplayBase, display_path: &str, error: &str) -> (v:
    PermissionViolation)
    ensures
        v.kind == PermissionViolationKind::Unreadable,
        v.path@ == display_path@,
{
    let mut message = owned("Cannot check permissions on ");
    push_str(&mut message, base.finding(display_path).as_str());
    push_str(&mut message, ": ");
    push_str(&mut message, escape_detail(error).as_str());
    PermissionViolation::new(display_path, PermissionViolationKind::Unreadable, message)
}

/// Render a nested failure so that it cannot break out of its line.
pub fn escape_detail(error: &str) -> (r: String)
    ensures
        r@ == escape_text(error@),
{
    format_path_for_message(error)
}

/// Which bound of the local state tree walk was reached.
#[derive(Debug, Clone, Copy, PartialEq, Eq, Structural)]
pub enum ScanLimit {
    Entries,
    Depth,
}

impl ScanLimit {
    pub fn describe_excess(self) -> (r: String)
        ensures
            r@ == (match self {
                ScanLimit::Entries => "more than 1024 entries"@,
                ScanLimit::Depth => "more than 6 levels"@,
            }),
    {
        let (count, unit) = match self {
            ScanLimit::Entries => (MAX_LOCAL_STATE_TREE_ENTRIES, " entries"),
            ScanLimit::Depth => (MAX_LOCAL_STATE_TREE_DEPTH, " levels"),
        };
        let mut r = owned("more than ");
        push_str(&mut r, format_decimal(count as u64).as_str());
        push_str(&mut r, unit);
        proof {
            reveal_strlit("more than ");
            reveal_strlit(" entries");
            reveal_strlit(" levels");
            reveal_strlit("more than 1024 entries");
            reveal_strlit("more than 6 levels");
            reveal_with_fuel(crate::text::decimal, 5);
        }
        r
    }
}

/// Report a walk that stopped before it had seen the whole tree.
fn describe_incomplete_scan(base: &DisplayBase, root_path: &str, limit: ScanLimit) -> (v:
    PermissionViolation)
    ensures
        v.kind == PermissionViolationKind::IncompleteScan,
        v.path@ == root_path@,
{
    let mut message = owned("Local state tree below ");
    push_str(&mut message, base.finding(root_path).as_str());
    push_str(&mut message, " holds ");
    push_str(&mut message, limit.describe_excess().as_str());
    push_str(
        &mut message,
        ", so the permission scan stopped before it reached every entry; remove what kapsaro did not write below the local state root, or select another local state root with --home or KAPSARO_HOME",
    );
    PermissionViolation::new(root_path, PermissionViolationKind::IncompleteScan, message)
}

/// Decide what an entry's owner and mode make it.
///
/// The owner is judged first; the mode is judged on `0o077` alone, which is
/// what group and other can do with the entry.
pub fn inspect_entry_facts(
    base: &DisplayBase,
    facts: EntryFacts,
    effective_uid: u32,
    display_path: &str,
) -> (r: Option<PermissionViolation>)
    ensures
        match entry_verdict(facts, effective_uid) {
            Some(kind) => r matches Some(v) && v.kind == kind && v.path@ == display_path@,
            None => r is None,
        },
{
    if facts.owner != effective_uid {
        return Some(describe_foreign_owner(base, facts.owner, facts.is_dir, display_path));
    }
    if facts.mode & GROUP_OTHER_BITS == 0 {
        return None;
    }
    Some(describe_violation(base, facts.mode, facts.is_dir, display_path))
}

/// Calls `rustix::process::geteuid` for the effective user id of this
/// process. The id depends on how the process was started, so nothing is
/// promised of its value.
#[verifier::external_body]
pub(crate) fn effective_uid() -> u32 {
    rustix::process::geteuid().as_raw()
}

/// Report an entry whose name kapsaro cannot decode.
pub fn describe_undecodable_name(base: &DisplayBase, display_path: &str) -> (v: PermissionViolation)
    ensures
        v.kind == PermissionViolationKind::UndecodableName,
        v.path@ == display_path@,
{
    let mut message = owned(
        "Local state holds an entry whose name is not UTF-8, so kapsaro did not write it: ",
    );
    push_str(&mut message, base.finding(display_path).as_str());
    PermissionViolation::new(display_path, PermissionViolationKind::UndecodableName, message)
}

/// The type of an entry found in a directory listing.
#[derive(Debug, Clone, Copy, PartialEq, Eq, Structural)]
pub enum ChildType {
    Symlink,
    Directory,
    RegularFile,
    Other,
}

pub fn name_entry_type(child_type: ChildType) -> (r: &'static str)
    ensures
        r@ == (match child_type {
            ChildType::Symlink => "symlink"@,
            ChildType::Directory => "directory"@,
            ChildType::RegularFile => "regular file"@,
            ChildType::Other => "special file"@,
        }),
{
    match child_type {
        ChildType::Symlink => "symlink",
        ChildType::Directory => "directory",
        ChildType::RegularFile => "regular file",
        ChildType::Other => "special file",
    }
}

/// Report an entry of a type kapsaro never writes into local state.
fn describe_unexpected_entry_type(base: &DisplayBase, display_path: &str, child_type: ChildType) -> (v:
    PermissionViolation)
    ensures
        v.kind == PermissionViolationKind::UnexpectedEntryType,
        v.path@ == display_path@,
{
    let mut message = owned("Local state holds a ");
    push_str(&mut message, name_entry_type(child_type));
    push_str(&mut message, ", which kapsaro does not write and cannot read: ");
    push_str(&mut message, base.finding(display_path).as_str());
    PermissionViolation::new(display_path, PermissionViolationKind::UnexpectedEntryType, message)
}

/// Report a directory that stopped being the entry the walk had just inspected.
pub fn describe_replaced_entry(base: &DisplayBase, display_path: &str) -> (v: PermissionViolation)
    ensures
        v.kind == PermissionViolationKind::ReplacedEntry,
        v.path@ == display_path@,
{
    let mut message = owned("Local state entry ");
    push_str(&mut message, base.finding(display_path).as_str());
    push_str(
        &mut message,
        " was replaced while its permissions were being checked, so the result does not describe what is there now; run the check again",
    );
    PermissionViolation::new(display_path, PermissionViolationKind::ReplacedEntry, message)
}

/// An ancestor is exposed when group or other can write it and the sticky bit
/// does not hold that write back.
pub open spec fn ancestor_exposed(mode: u32) -> bool {
    mode & GROUP_OTHER_WRITE_BITS != 0 && mode & STICKY_BIT == 0
}

/// Report an ancestor whose mode lets another user replace the path below it.
pub fn inspect_ancestor_mode(base: &DisplayBase, mode: u32, real_path: &str) -> (r: Option<
    PermissionViolation,
>)
    ensures
        ancestor_exposed(mode) ==> (r matches Some(v) && v.kind
            == PermissionViolationKind::InsecureAncestor && v.path@ == real_path@),
        !ancestor_exposed(mode) ==> r is None,
{
    if mode & GROUP_OTHER_WRITE_BITS == 0 {
        return None;
    }
    if mode & STICKY_BIT != 0 {
        return None;
    }
    Some(describe_ancestor_violation(base, mode, real_path))
}

fn describe_ancestor_violation(base: &DisplayBase, mode: u32, real_path: &str) -> (v:
    PermissionViolation)
    ensures
        v.kind == PermissionViolationKind::InsecureAncestor,
        v.path@ == real_path@,
{
    let mut message = owned("Insecure ancestor permissions ");
    push_str(&mut message, format_octal4(mode).as_str());
    push_str(&mut message, " on ");
    push_str(&mut message, base.finding(real_path).as_str());
    push_str(
        &mut message,
        " (group or other can write and the sticky bit is not set, so another user can replace the local state path); ",
    );
    push_str(&mut message, describe_ancestor_repair(real_path).as_str());
    PermissionViolation::new(real_path, PermissionViolationKind::InsecureAncestor, message)
}

/// The advice for an exposed ancestor: the repair command when one could be
/// formed, and another local state root either way.
pub open spec fn ancestor_repair_text(repair: Option<Seq<char>>) -> Seq<char> {
    match repair {
        Some(command) => "run: "@ + command
            + ", or select another local state root with --home or KAPSARO_HOME"@,
        None => "select another local state root with --home or KAPSARO_HOME, because the path holds bytes that are not valid UTF-8 and no repair command can name it"@,
    }
}

/// Say how to close the exposure, or why only the second way is offered.
fn describe_ancestor_repair(real_path: &str) -> (r: String)
    ensures
        exists|repair: Option<Seq<char>>|
            #![trigger ancestor_repair_text(repair)]
            (repair matches Some(line) ==> names_absolute_repair("chmod go-w"@, line)) && (
            real_path@.len() == 0 ==> repair is None) && r@ == ancestor_repair_text(repair),
{
    match format_repair_command("chmod go-w", real_path) {
        Some(command) => {
            let mut r = owned("run: ");
            push_str(&mut r, command.as_str());
            push_str(&mut r, ", or select another local state root with --home or KAPSARO_HOME");
            proof {
                assert(r@ == ancestor_repair_text(Some(command@)));
            }
            r
        },
        None => {
            let r = owned(
                "select another local state root with --home or KAPSARO_HOME, because the path holds bytes that are not valid UTF-8 and no repair command can name it",
            );
            proof {
                assert(r@ == ancestor_repair_text(None));
            }
            r
        },
    }
}

/// Say that the chain to the root could not be walked at all.
pub fn format_unresolvable_ancestry(base: &DisplayBase, path: &str, error: &str) -> (r: String)
    ensures
        r@ == "Cannot resolve the local state ancestry of "@ + finding_display(base.cwd(), path@)
            + ": "@ + escape_text(error@),
{
    let mut message = owned("Cannot resolve the local state ancestry of ");
    push_str(&mut message, base.finding(path).as_str());
    push_str(&mut message, ": ");
    push_str(&mut message, escape_detail(error).as_str());
    message
}

/// Say that one ancestor could not be read.
pub fn format_unreadable_ancestor(base: &DisplayBase, path: &str, error: &str) -> (r: String)
    ensures
        r@ == "Cannot check permissions on ancestor "@ + finding_display(base.cwd(), path@) + ": "@
            + escape_text(error@),
{
    let mut message = owned("Cannot check permissions on ancestor ");
    push_str(&mut message, base.finding(path).as_str());
    push_str(&mut message, ": ");
    push_str(&mut message, escape_detail(error).as_str());
    message
}

/// Whether an ancestor's owner is one the machine is administered with: root
/// or the operator themself.
pub fn is_administrative_owner(owner: u32, effective_uid: u32) -> (r: bool)
    ensures
        r == (owner == 0 || owner == effective_uid),
{
    owner == 0 || owner == effective_uid
}

/// An ancestor directory a third account owns.
#[derive(Debug, Clone)]
pub struct AncestorOwnerFinding {
    pub path: String,
    pub owner: u32,
}

impl AncestorOwnerFinding {
    pub fn path(&self) -> (p: &str)
        ensures
            p@ == self.path@,
    {
        self.path.as_str()
    }

    pub fn owner(&self) -> (o: u32)
        ensures
            o == self.owner,
    {
        self.owner
    }
}

/// Name an ancestor a third account owns, or nothing when its owner is expected.
pub fn inspect_ancestor_owner(owner: u32, path: &str, effective_uid: u32) -> (r: Option<
    AncestorOwnerFinding,
>)
    ensures
        (owner == 0 || owner == effective_uid) ==> r is None,
        !(owner == 0 || owner == effective_uid) ==> (r matches Some(f) && f.owner == owner
            && f.path@ == path@),
{
    if is_administrative_owner(owner, effective_uid) {
        return None;
    }
    Some(AncestorOwnerFinding { path: owned(path), owner })
}

/// Everything one walk over the local state ancestry read from it.
pub struct LocalStateAncestryScan {
    pub violations: Vec<PermissionViolation>,
    pub owners: Vec<AncestorOwnerFinding>,
    pub unreadable: Option<String>,
}

impl LocalStateAncestryScan {
    pub fn new() -> (s: LocalStateAncestryScan)
        ensures
            s.violations@.len() == 0,
            s.owners@.len() == 0,
            s.unreadable is None,
    {
        LocalStateAncestryScan { violations: Vec::new(), owners: Vec::new(), unreadable: None }
    }

    /// Take in one ancestor: its mode and owner when they could be read, or
    /// the reason they could not.
    pub fn read(
        &mut self,
        base: &DisplayBase,
        path: &str,
        facts: core::result::Result<(u32, u32), String>,
        effective_uid: u32,
    )
        ensures
            match facts {
                Ok((mode, owner)) => {
                    &&& final(self).violations@.len() == old(self).violations@.len() + (if ancestor_exposed(mode) { 1int } else { 0 })
                    &&& final(self).owners@.len() == old(self).owners@.len() + (if owner == 0 || owner == effective_uid { 0int } else { 1 })
                    &&& final(self).unreadable == old(self).unreadable
                },
                Err(_) => {
                    &&& final(self).violations@.len() == old(self).violations@.len() + 1
                    &&& final(self).violations@.last().kind == PermissionViolationKind::UnreadableAncestor
                    &&& final(self).owners@ == old(self).owners@
                    &&& final(self).unreadable is Some
                    &&& old(self).unreadable is Some ==> final(self).unreadable == old(self).unreadable
                },
            },
    {
        match facts {
            Ok((mode, owner)) => {
                if let Some(v) = inspect_ancestor_mode(base, mode, path) {
                    self.violations.push(v);
                }
                if let Some(f) = inspect_ancestor_owner(owner, path, effective_uid) {
                    self.owners.push(f);
                }
            },
            Err(error) => self.record_unreadable(base, path, error.as_str()),
        }
    }

    /// Record an ancestor that could not be read: a finding of its own for the
    /// mode question, and the reason the owner question has no answer.
    fn record_unreadable(&mut self, base: &DisplayBase, path: &str, error: &str)
        ensures
            final(self).violations@.len() == old(self).violations@.len() + 1,
            final(self).violations@.last().kind == PermissionViolationKind::UnreadableAncestor,
            final(self).violations@.last().path@ == path@,
            final(self).owners@ == old(self).owners@,
            final(self).unreadable is Some,
            old(self).unreadable is Some ==> final(self).unreadable == old(self).unreadable,
    {
        let reason = format_unreadable_ancestor(base, path, error);
        let copy = reason.clone();
        self.violations.push(
            PermissionViolation::new(path, PermissionViolationKind::UnreadableAncestor, reason),
        );
        if self.unreadable.is_none() {
            self.unreadable = Some(copy);
        }
    }
}

/// One readable entry of a directory listing.
pub struct InspectedChild {
    pub path: String,
    pub name_decoded: bool,
    pub child_type: ChildType,
    pub facts: EntryFacts,
}

/// Findings, the remaining entry budget and the bound one tree walk reached.
pub struct LocalStateTreeWalk {
    pub violations: Vec<PermissionViolation>,
    pub remaining_entries: usize,
    pub reached_limit: Option<ScanLimit>,
    pub effective_uid: u32,
    pub base: DisplayBase,
}

impl LocalStateTreeWalk {
    /// Start a walk judged against this process's effective user.
    pub fn new(base: DisplayBase) -> (w: LocalStateTreeWalk)
        ensures
            w.violations@.len() == 0,
            w.remaining_entries == MAX_LOCAL_STATE_TREE_ENTRIES,
            w.reached_limit is None,
    {
        LocalStateTreeWalk {
            violations: Vec::new(),
            remaining_entries: MAX_LOCAL_STATE_TREE_ENTRIES,
            reached_limit: None,
            effective_uid: effective_uid(),
            base,
        }
    }

    pub fn record(&mut self, violation: Option<PermissionViolation>)
        ensures
            final(self).violations@ == (match violation {
                Some(v) => old(self).violations@.push(v),
                None => old(self).violations@,
            }),
            final(self).remaining_entries == old(self).remaining_entries,
            final(self).reached_limit == old(self).reached_limit,
            final(self).effective_uid == old(self).effective_uid,
    {
        if let Some(v) = violation {
            self.violations.push(v);
        }
    }

    /// Note the bound that ended the walk early, keeping the one reached first.
    pub fn mark_limit(&mut self, limit: ScanLimit)
        ensures
            final(self).reached_limit == (match old(self).reached_limit {
                Some(first) => Some(first),
                None => Some(limit),
            }),
            final(self).violations@ == old(self).violations@,
            final(self).remaining_entries == old(self).remaining_entries,
            final(self).effective_uid == old(self).effective_uid,
    {
        if self.reached_limit.is_none() {
            self.reached_limit = Some(limit);
        }
    }

    /// Hand back the findings, naming the part of the tree left uninspected.
    pub fn finish(self, root_path: &str) -> (r: Vec<PermissionViolation>)
        ensures
            match self.reached_limit {
                Some(_) => r@.len() == self.violations@.len() + 1 && r@.take(
                    self.violations@.len() as int,
                ) == self.violations@ && r@.last().kind == PermissionViolationKind::IncompleteScan,
                None => r@ == self.violations@,
            },
    {
        let LocalStateTreeWalk { violations, reached_limit, base, .. } = self;
        let mut violations = violations;
        if let Some(limit) = reached_limit {
            let finding = describe_incomplete_scan(&base, root_path, limit);
            let ghost before = violations@;
            violations.push(finding);
            proof {
                assert(violations@.take(before.len() as int) =~= before);
            }
        }
        violations
    }

    pub fn has_budget(&self) -> (r: bool)
        ensures
            r == (self.remaining_entries > 0),
    {
        self.remaining_entries > 0
    }

    /// Charge one inspected entry to the walk's budget.
    pub fn spend_entry(&mut self)
        ensures
            final(self).remaining_entries == (if old(self).remaining_entries == 0 {
                0
            } else {
                (old(self).remaining_entries - 1) as usize
            }),
            final(self).violations@ == old(self).violations@,
            final(self).reached_limit == old(self).reached_limit,
            final(self).effective_uid == old(self).effective_uid,
    {
        self.remaining_entries = if self.remaining_entries == 0 {
            0
        } else {
            self.remaining_entries - 1
        };
    }

    /// Judge one readable entry: a name that does not decode is reported, a
    /// symlink or special file is reported as unexpected (and by its owner
    /// when that is someone else), and anything else is judged on its owner
    /// and mode. Returns whether the walk should go below the entry.
    pub fn judge_child(&mut self, scanned: &InspectedChild) -> (descend: bool)
        ensures
            descend == (scanned.child_type == ChildType::Directory),
            final(self).remaining_entries == old(self).remaining_entries,
            final(self).reached_limit == old(self).reached_limit,
            final(self).effective_uid == old(self).effective_uid,
            final(self).violations@.len() == old(self).violations@.len() + (if scanned.name_decoded {
                0int
            } else {
                1
            }) + (if scanned.child_type == ChildType::Symlink || scanned.child_type
                == ChildType::Other {
                1 + (if scanned.facts.owner == old(self).effective_uid { 0int } else { 1 })
            } else {
                (if entry_verdict(scanned.facts, old(self).effective_uid) is Some {
                    1int
                } else {
                    0
                })
            }),
    {
        if !scanned.name_decoded {
            let finding = describe_undecodable_name(&self.base, scanned.path.as_str());
            self.record(Some(finding));
        }
        if scanned.child_type == ChildType::Symlink || scanned.child_type == ChildType::Other {
            self.record_unexpected_entry(scanned);
            return false;
        }
        let finding = inspect_entry_facts(
            &self.base,
            scanned.facts,
            self.effective_uid,
            scanned.path.as_str(),
        );
        self.record(finding);
        scanned.child_type == ChildType::Directory
    }

    /// Record an entry of a type kapsaro never writes, and who owns it.
    fn record_unexpected_entry(&mut self, scanned: &InspectedChild)
        ensures
            final(self).remaining_entries == old(self).remaining_entries,
            final(self).reached_limit == old(self).reached_limit,
            final(self).effective_uid == old(self).effective_uid,
            final(self).violations@.len() == old(self).violations@.len() + 1 + (if scanned.facts.owner
                == old(self).effective_uid {
                0int
            } else {
                1
            }),
            final(self).violations@[old(self).violations@.len() as int].kind
                == PermissionViolationKind::UnexpectedEntryType,
    {
        let finding = describe_unexpected_entry_type(
            &self.base,
            scanned.path.as_str(),
            scanned.child_type,
        );
        self.record(Some(finding));
        if scanned.facts.owner == self.effective_uid {
            return;
        }
        let finding = describe_foreign_owner(
            &self.base,
            scanned.facts.owner,
            scanned.facts.is_dir,
            scanned.path.as_str(),
        );
        self.record(Some(finding));
    }

    /// Whether the walk goes below `pending` directories at `depth`: not when
    /// there are none, not past the depth bound, and not once the entry budget
    /// is spent. A bound that stops the walk is noted.
    pub fn may_descend(&mut self, pending: usize, depth: usize) -> (go: bool)
        ensures
            go == (pending > 0 && depth < MAX_LOCAL_STATE_TREE_DEPTH && old(self).remaining_entries
                > 0),
            final(self).violations@ == old(self).violations@,
            final(self).remaining_entries == old(self).remaining_entries,
            pending > 0 && depth >= MAX_LOCAL_STATE_TREE_DEPTH ==> final(self).reached_limit == (
            match old(self).reached_limit {
                Some(first) => Some(first),
                None => Some(ScanLimit::Depth),
            }),
            pending > 0 && depth < MAX_LOCAL_STATE_TREE_DEPTH && old(self).remaining_entries == 0
                ==> final(self).reached_limit == (match old(self).reached_limit {
                Some(first) => Some(first),
                None => Some(ScanLimit::Entries),
            }),
            pending == 0 || (depth < MAX_LOCAL_STATE_TREE_DEPTH && old(self).remaining_entries > 0)
                ==> final(self).reached_limit == old(self).reached_limit,
    {
        if pending == 0 {
            return false;
        }
        if depth >= MAX_LOCAL_STATE_TREE_DEPTH {
            self.mark_limit(ScanLimit::Depth);
            return false;
        }
        if !self.has_budget() {
            self.mark_limit(ScanLimit::Entries);
            return false;
        }
        true
    }
}

/// An entry the effective user owns is reported exactly when group or other
/// holds any permission bit on it (read, write or execute), and then for its
/// mode; an entry another user owns is always reported for its owner.
pub proof fn lemma_owned_entry_is_judged_on_every_group_and_other_bit(facts: EntryFacts, uid: u32)
    ensures
        facts.owner == uid ==> (entry_verdict(facts, uid) is None <==> (facts.mode & 0o040u32 == 0
            && facts.mode & 0o020u32 == 0 && facts.mode & 0o010u32 == 0 && facts.mode & 0o004u32 == 0
            && facts.mode & 0o002u32 == 0 && facts.mode & 0o001u32 == 0)),
        facts.owner == uid && (facts.mode & 0o040u32 != 0 || facts.mode & 0o004u32 != 0) ==> entry_verdict(
            facts,
            uid,
        ) == Some(PermissionViolationKind::InsecureMode),
        facts.owner == uid && entry_verdict(facts, uid) is Some ==> entry_verdict(facts, uid) == Some(
            PermissionViolationKind::InsecureMode,
        ),
        facts.owner != uid ==> entry_verdict(facts, uid) == Some(PermissionViolationKind::ForeignOwner),
{
    let m = facts.mode;
    assert((m & 0o077u32 == 0) <==> (m & 0o040u32 == 0 && m & 0o020u32 == 0 && m & 0o010u32 == 0
        && m & 0o004u32 == 0 && m & 0o002u32 == 0 && m & 0o001u32 == 0)) by (bit_vector);
}

} // verus!
