//! Directory creation policy: how a refusal about a directory is worded, and
//! what an existing entry on the way to a new directory must be.

use vstd::prelude::*;
use crate::error::{Error, ErrorKind, Result};
use crate::path::{relative_display, DisplayBase};
use crate::text::{owned, push_str};
use crate::fs::permission::{name_entry_type, ChildType};

verus! {

/// Which wording a refusal about a directory is phrased in.
#[derive(Debug, Clone, Copy, PartialEq, Eq, Structural)]
pub enum DirectoryKind {
    General,
    Workspace,
}

/// What an inspection of an existing entry found.
#[derive(Debug, Clone, Copy, PartialEq, Eq, Structural)]
pub enum EntryType {
    Symlink,
    Directory,
    Other,
}

/// An existing entry on the way to a new directory must be a real directory:
/// a symlink is refused as an invalid operation, anything else that is not a
/// directory as an I/O failure.
pub fn validate_real_directory(
    base: &DisplayBase,
    path: &str,
    entry: EntryType,
    kind: DirectoryKind,
) -> (r: Result<()>)
    ensures
        entry == EntryType::Directory ==> r is Ok,
        entry == EntryType::Symlink ==> (r matches Err(e) && e.kind == ErrorKind::InvalidOperation),
        entry == EntryType::Other ==> (r matches Err(e) && e.kind == ErrorKind::Io),
{
    match entry {
        EntryType::Symlink => Err(
            Error::build_invalid_operation_error(symlink_directory_message(base, path, kind)),
        ),
        EntryType::Other => Err(Error::build_io_error(non_directory_message(base, path))),
        EntryType::Directory => Ok(()),
    }
}

/// Report a path whose ancestry could not be resolved.
pub fn resolve_directory_error(base: &DisplayBase, path: &str, kind: DirectoryKind) -> (e: Error)
    ensures
        e.kind == ErrorKind::Io,
        e.message@ == (match kind {
            DirectoryKind::General => "Failed to resolve directory ancestry for "@,
            DirectoryKind::Workspace => "Failed to resolve workspace directory ancestry for "@,
        }) + relative_display(base.cwd(), path@),
{
    let mut message = match kind {
        DirectoryKind::General => owned("Failed to resolve directory ancestry for "),
        DirectoryKind::Workspace => owned("Failed to resolve workspace directory ancestry for "),
    };
    push_str(&mut message, base.relative(path).as_str());
    Error::build_io_error(message)
}

/// The refusal to build a directory through a symlink.
pub fn symlink_directory_message(base: &DisplayBase, path: &str, kind: DirectoryKind) -> (r:
    String)
    ensures
        r@ == (match kind {
            DirectoryKind::General => "refusing to create directory through symlink: "@,
            DirectoryKind::Workspace => "refusing to create workspace path through symlink: "@,
        }) + relative_display(base.cwd(), path@),
{
    let mut message = match kind {
        DirectoryKind::General => owned("refusing to create directory through symlink: "),
        DirectoryKind::Workspace => owned("refusing to create workspace path through symlink: "),
    };
    push_str(&mut message, base.relative(path).as_str());
    message
}

/// The refusal to build a directory where another kind of entry stands.
pub fn non_directory_message(base: &DisplayBase, path: &str) -> (r: String)
    ensures
        r@ == "Failed to create directory "@ + relative_display(base.cwd(), path@)
            + ": existing path is not a directory"@,
{
    let mut message = owned("Failed to create directory ");
    push_str(&mut message, base.relative(path).as_str());
    push_str(&mut message, ": existing path is not a directory");
    message
}

/// Report a deepest existing ancestor that could not be bound to a
/// descriptor: a refusal of the operation is restated as the symlink refusal,
/// anything else is passed on.
pub fn creation_root_error(base: &DisplayBase, path: &str, error: Error, kind: DirectoryKind) -> (e:
    Error)
    ensures
        error.kind == ErrorKind::InvalidOperation ==> e.kind == ErrorKind::InvalidOperation
            && e.message@ == symlink_message_spec(base, path@, kind),
        error.kind != ErrorKind::InvalidOperation ==> e == error,
{
    if error.kind() == ErrorKind::InvalidOperation {
        return Error::build_invalid_operation_error(symlink_directory_message(base, path, kind));
    }
    error
}

pub open spec fn symlink_message_spec(base: &DisplayBase, path: Seq<char>, kind: DirectoryKind) -> Seq<
    char,
> {
    (match kind {
        DirectoryKind::General => "refusing to create directory through symlink: "@,
        DirectoryKind::Workspace => "refusing to create workspace path through symlink: "@,
    }) + relative_display(base.cwd(), path)
}

/// Report a directory that could not be inspected.
pub fn inspect_directory_error(base: &DisplayBase, path: &str, detail: &str) -> (e: Error)
    ensures
        e.kind == ErrorKind::Io,
        e.message@ == "Failed to inspect directory "@ + relative_display(base.cwd(), path@) + ": "@
            + detail@,
{
    let mut message = owned("Failed to inspect directory ");
    push_str(&mut message, base.relative(path).as_str());
    push_str(&mut message, ": ");
    push_str(&mut message, detail);
    Error::build_io_error(message)
}


/// What an atomic write may replace: nothing, or a regular file. Any other
/// entry at the target is refused with what it is.
pub fn enforce_replaceable_target(base: &DisplayBase, path: &str, occupied: Option<ChildType>) -> (r:
    Result<()>)
    ensures
        (occupied is None || occupied == Some(ChildType::RegularFile)) <==> r is Ok,
        r matches Err(e) ==> e.kind == ErrorKind::InvalidOperation && (occupied matches Some(t)
            && e.message@ == "refusing to write: target is a "@ + (match t {
            ChildType::Symlink => "symlink"@,
            ChildType::Directory => "directory"@,
            ChildType::RegularFile => "regular file"@,
            ChildType::Other => "special file"@,
        }) + ": "@ + relative_display(base.cwd(), path@)),
{
    let occupied = match occupied {
        None => {
            return Ok(());
        },
        Some(ChildType::RegularFile) => {
            return Ok(());
        },
        Some(t) => t,
    };
    let mut message = owned("refusing to write: target is a ");
    push_str(&mut message, name_entry_type(occupied));
    push_str(&mut message, ": ");
    push_str(&mut message, base.relative(path).as_str());
    Err(Error::build_invalid_operation_error(message))
}

} // verus!
