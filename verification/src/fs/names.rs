//! Names of directory entries: which names may stand for one child of a
//! directory, the names an unfinished write stages its entries under, and
//! how an entry of the wrong type is named in a refusal.

use vstd::prelude::*;
use crate::display::{escape_text, format_path_for_message};
use crate::error::{has_recovery, local_state_path_unsafe, Error, ErrorKind, Result};
use crate::fs::permission::ChildType;
use crate::ids::{
    digit_index, hyphenated_id, hyphenated_text, is_hex_char, is_hyphen_position,
    is_hyphenated_uuid_text, lemma_hyphenated_text_is_uuid, new_random_id, parses_as_uuid,
    random_failure,
};
use vstd::arithmetic::power2::pow2;
use crate::limits::{MAX_ATOMIC_WRITE_TARGET_NAME_LENGTH, MAX_FILE_NAME_LENGTH};
use crate::text::{
    char_utf8_len, collect_chars, decimal, format_decimal, lemma_utf8_len_concat,
    lemma_utf8_len_is_encoding_len, owned, push_str, string_from_chars, utf8_len,
};

verus! {

/// The bytes `b` name one child of a directory: not empty, not `.` or `..`,
/// and holding neither a slash nor a NUL byte.
pub open spec fn names_one_child(b: Seq<u8>) -> bool {
    &&& b.len() > 0
    &&& b != seq![46u8]
    &&& b != seq![46u8, 46u8]
    &&& !b.contains(47u8)
    &&& !b.contains(0u8)
}

/// The bytes `b` are a name kapsaro may give a child itself: one child,
/// and no backslash either.
pub open spec fn is_own_child_name(b: Seq<u8>) -> bool {
    names_one_child(b) && !b.contains(92u8)
}

pub open spec fn single_component_message(shown: Seq<char>) -> Seq<char> {
    "invalid relative file name "@ + shown + ": only a single path component is allowed"@
}

/// Whether `bytes` holds `b`.
fn holds_byte(bytes: &[u8], b: u8) -> (r: bool)
    ensures
        r == bytes@.contains(b),
{
    let mut i: usize = 0;
    while i < bytes.len()
        invariant
            i <= bytes@.len(),
            forall|k: int| 0 <= k < i ==> bytes@[k] != b,
        decreases bytes.len() - i,
    {
        if bytes[i] == b {
            assert(bytes@[i as int] == b);
            return true;
        }
        i = i + 1;
    }
    false
}

fn names_one_child_bytes(bytes: &[u8]) -> (r: bool)
    ensures
        r == names_one_child(bytes@),
{
    if bytes.len() == 0 {
        return false;
    }
    if bytes.len() == 1 && bytes[0] == 46u8 {
        assert(bytes@ =~= seq![46u8]);
        return false;
    }
    if bytes.len() == 2 && bytes[0] == 46u8 && bytes[1] == 46u8 {
        assert(bytes@ =~= seq![46u8, 46u8]);
        return false;
    }
    proof {
        if bytes@.len() == 1 {
            assert(bytes@ != seq![46u8, 46u8]);
            if bytes@ == seq![46u8] {
                assert(bytes@[0] == 46u8);
            }
        }
        if bytes@.len() == 2 {
            if bytes@ == seq![46u8, 46u8] {
                assert(bytes@[0] == 46u8 && bytes@[1] == 46u8);
            }
        }
    }
    !holds_byte(bytes, 47u8) && !holds_byte(bytes, 0u8)
}

/// Accept a name kapsaro chose itself as the name of one child.
pub fn check_child_name(name: &str) -> (r: Result<()>)
    ensures
        r is Ok <==> is_own_child_name(vstd::utf8::encode_utf8(name@)),
        r matches Err(e) ==> e.kind == ErrorKind::InvalidArgument && e.message@
            == single_component_message("'"@ + name@ + "'"@),
{
    let bytes = name.as_bytes();
    if holds_byte(bytes, 92u8) || !names_one_child_bytes(bytes) {
        let mut message = owned("invalid relative file name ");
        push_str(&mut message, "'");
        push_str(&mut message, name);
        push_str(&mut message, "'");
        push_str(&mut message, ": only a single path component is allowed");
        return Err(Error::build_invalid_argument_error(message));
    }
    Ok(())
}

/// Accept one component of a path the operator gave as the name of one
/// child; the refusal spells the name out.
pub fn check_path_component(name: &str) -> (r: Result<()>)
    ensures
        r is Ok <==> names_one_child(vstd::utf8::encode_utf8(name@)),
        r matches Err(e) ==> e.kind == ErrorKind::InvalidArgument && e.message@
            == single_component_message(escape_text(name@)),
{
    if !names_one_child_bytes(name.as_bytes()) {
        let mut message = owned("invalid relative file name ");
        push_str(&mut message, format_path_for_message(name).as_str());
        push_str(&mut message, ": only a single path component is allowed");
        return Err(Error::build_invalid_argument_error(message));
    }
    Ok(())
}

pub open spec fn target_too_long_message(len: nat) -> Seq<char> {
    "file name too long for an atomic write: "@ + decimal(len) + " bytes (max "@ + decimal(
        MAX_ATOMIC_WRITE_TARGET_NAME_LENGTH as nat,
    ) + ")"@
}

/// Accept a name an atomic write may stage under `.{name}.tmp.{uuid}`: a
/// name kapsaro may give a child, short enough for the staged name to fit.
pub fn check_atomic_write_target_name(name: &str) -> (r: Result<()>)
    ensures
        r is Ok <==> (utf8_len(name@) <= MAX_ATOMIC_WRITE_TARGET_NAME_LENGTH && is_own_child_name(
            vstd::utf8::encode_utf8(name@),
        )),
        utf8_len(name@) > MAX_ATOMIC_WRITE_TARGET_NAME_LENGTH ==> (r matches Err(e) && e.kind
            == ErrorKind::InvalidArgument && e.message@ == target_too_long_message(
            utf8_len(name@),
        )),
        utf8_len(name@) <= MAX_ATOMIC_WRITE_TARGET_NAME_LENGTH ==> (r matches Err(e) ==> e.message@
            == single_component_message("'"@ + name@ + "'"@)),
{
    proof {
        lemma_utf8_len_is_encoding_len(name@);
    }
    let len = name.as_bytes().len();
    if len > MAX_ATOMIC_WRITE_TARGET_NAME_LENGTH {
        let mut message = owned("file name too long for an atomic write: ");
        push_str(&mut message, format_decimal(len as u64).as_str());
        push_str(&mut message, " bytes (max ");
        push_str(&mut message, format_decimal(MAX_ATOMIC_WRITE_TARGET_NAME_LENGTH as u64).as_str());
        push_str(&mut message, ")");
        return Err(Error::build_invalid_argument_error(message));
    }
    check_child_name(name)
}

/// `p` begins `s`.
pub open spec fn starts_with(s: Seq<char>, p: Seq<char>) -> bool {
    s.len() >= p.len() && s.take(p.len() as int) == p
}

/// `.tmp.` occurs in `s` at `i` and at no later position.
pub open spec fn last_staging_mark_at(s: Seq<char>, i: int) -> bool {
    &&& crate::text::occurs_at(s, ".tmp."@, i)
    &&& forall|j: int| i < j ==> !crate::text::occurs_at(s, ".tmp."@, j)
}

/// `value` is a UUID in hyphenated form, as `uuid::Uuid::parse_str` accepts
/// it from a 36-byte text.
pub open spec fn is_hyphenated_uuid(value: Seq<char>) -> bool {
    utf8_len(value) == 36 && is_hyphenated_uuid_text(value)
}

/// `name` has the shape of an entry staged by an unfinished write:
/// `.tmp-{uuid}` for a staged directory, or `.{target}.tmp.{uuid}` for a
/// staged file, split at the last `.tmp.`.
pub open spec fn is_staging_name(name: Seq<char>) -> bool {
    if starts_with(name, ".tmp-"@) {
        is_hyphenated_uuid(name.skip(5))
    } else {
        exists|i: int|
            last_staging_mark_at(name, i) && #[trigger] utf8_len(name.take(i)) > 1 && name[0] == '.'
                && is_hyphenated_uuid(name.skip(i + 5))
    }
}

/// Whether `value` is a UUID in hyphenated form.
pub fn is_hyphenated_uuid_value(value: &str) -> (r: bool)
    ensures
        r == is_hyphenated_uuid(value@),
{
    proof {
        lemma_utf8_len_is_encoding_len(value@);
    }
    value.as_bytes().len() == 36 && parses_as_uuid(value)
}

/// The characters of `chars` from `start` on.
fn chars_from(chars: &Vec<char>, start: usize) -> (r: Vec<char>)
    requires
        start <= chars@.len(),
    ensures
        r@ == chars@.skip(start as int),
{
    let mut out: Vec<char> = Vec::new();
    let mut i: usize = start;
    while i < chars.len()
        invariant
            start <= i <= chars@.len(),
            out@ == chars@.subrange(start as int, i as int),
        decreases chars.len() - i,
    {
        out.push(chars[i]);
        proof {
            assert(out@ =~= chars@.subrange(start as int, i + 1));
        }
        i = i + 1;
    }
    proof {
        assert(out@ =~= chars@.skip(start as int));
    }
    out
}

/// The characters of `chars` before `end`.
fn chars_before(chars: &Vec<char>, end: usize) -> (r: Vec<char>)
    requires
        end <= chars@.len(),
    ensures
        r@ == chars@.take(end as int),
{
    let mut out: Vec<char> = Vec::new();
    let mut i: usize = 0;
    while i < end
        invariant
            i <= end <= chars@.len(),
            out@ == chars@.take(i as int),
        decreases end - i,
    {
        out.push(chars[i]);
        proof {
            assert(out@ =~= chars@.take(i + 1));
        }
        i = i + 1;
    }
    out
}

fn marks_at(chars: &Vec<char>, i: usize, mark: &Vec<char>) -> (r: bool)
    requires
        mark@.len() == 5,
    ensures
        r == crate::text::occurs_at(chars@, mark@, i as int),
{
    if i > chars.len() || chars.len() - i < 5 {
        return false;
    }
    let mut k: usize = 0;
    while k < 5
        invariant
            k <= 5,
            mark@.len() == 5,
            i + 5 <= chars.len(),
            forall|m: int| 0 <= m < k ==> chars@[i + m] == mark@[m],
        decreases 5 - k,
    {
        if chars[i + k] != mark[k] {
            assert(chars@.subrange(i as int, i + 5)[k as int] != mark@[k as int]);
            return false;
        }
        k = k + 1;
    }
    assert(chars@.subrange(i as int, i + 5) =~= mark@);
    true
}

/// Whether `name` has the shape of an entry staged by an unfinished write.
///
/// Only the name is examined, so a caller reports the leftover rather than
/// deleting what it found.
pub fn is_write_staging_name(name: &str) -> (r: bool)
    ensures
        r == is_staging_name(name@),
{
    let chars = collect_chars(name);
    let dir_mark = collect_chars(".tmp-");
    let file_mark = collect_chars(".tmp.");
    proof {
        reveal_strlit(".tmp-");
        reveal_strlit(".tmp.");
    }
    if marks_at(&chars, 0, &dir_mark) {
        proof {
            assert(name@.take(5) =~= name@.subrange(0, 5));
        }
        let suffix = string_from_chars(&chars_from(&chars, 5));
        return is_hyphenated_uuid_value(suffix.as_str());
    }
    proof {
        if starts_with(name@, ".tmp-"@) {
            assert(name@.subrange(0, 5) =~= name@.take(5));
        }
    }
    if chars.len() < 5 {
        proof {
            assert forall|j: int| !crate::text::occurs_at(name@, ".tmp."@, j) by {}
        }
        return false;
    }
    let mut i: usize = chars.len() - 5;
    loop
        invariant
            i + 5 <= chars@.len(),
            chars@ == name@,
            file_mark@ == ".tmp."@,
            file_mark@.len() == 5,
            !starts_with(name@, ".tmp-"@),
            forall|j: int| i < j ==> !crate::text::occurs_at(name@, ".tmp."@, j),
        ensures
            i + 5 <= chars@.len(),
            crate::text::occurs_at(name@, ".tmp."@, i as int),
            forall|j: int| i < j ==> !crate::text::occurs_at(name@, ".tmp."@, j),
        decreases i,
    {
        if marks_at(&chars, i, &file_mark) {
            break;
        }
        if i == 0 {
            proof {
                assert forall|j: int| !crate::text::occurs_at(name@, ".tmp."@, j) by {
                    if j == 0 {
                    }
                }
            }
            return false;
        }
        i = i - 1;
    }
    proof {
        assert(last_staging_mark_at(name@, i as int));
        assert forall|j: int| last_staging_mark_at(name@, j) implies j == i by {
            if j < i {
                assert(!last_staging_mark_at(name@, j));
            }
        }
        lemma_utf8_len_is_encoding_len(name@.take(i as int));
    }
    let prefix = string_from_chars(&chars_before(&chars, i));
    let suffix = string_from_chars(&chars_from(&chars, i + 5));
    prefix.as_str().as_bytes().len() > 1 && chars[0] == '.' && is_hyphenated_uuid_value(
        suffix.as_str(),
    )
}

/// A name to stage `target` under beside it until a rename publishes it:
/// `.{target}.tmp.{uuid}` with a fresh random UUID. Fails only when no
/// random bytes can be drawn.
pub fn unique_write_staging_name(target: &str) -> (r: Result<String>)
    ensures
        r matches Ok(name) ==> exists|id: u128|
            name@ == "."@ + target@ + ".tmp."@ + #[trigger] hyphenated_text(id),
        r matches Err(e) ==> random_failure(e),
{
    let id = new_random_id()?;
    let mut name = owned(".");
    push_str(&mut name, target);
    push_str(&mut name, ".tmp.");
    push_str(&mut name, hyphenated_id(id).as_str());
    Ok(name)
}

/// A name to stage a directory under until a rename publishes it:
/// `.tmp-{uuid}` with a fresh random UUID.
pub fn unique_staging_dir_name() -> (r: Result<String>)
    ensures
        r matches Ok(name) ==> exists|id: u128| name@ == ".tmp-"@ + #[trigger] hyphenated_text(id),
        r matches Err(e) ==> random_failure(e),
{
    let id = new_random_id()?;
    let mut name = owned(".tmp-");
    push_str(&mut name, hyphenated_id(id).as_str());
    Ok(name)
}

/// Whether an entry beyond the first `inspected` may still be inspected.
#[derive(Debug, Clone, Copy, PartialEq, Eq, Structural)]
pub enum ScanBudget {
    Unlimited,
    AtMost(usize),
}

impl ScanBudget {
    /// Whether one more entry may be inspected after `inspected` of them.
    pub fn allows(self, inspected: usize) -> (r: bool)
        ensures
            r == match self {
                ScanBudget::Unlimited => true,
                ScanBudget::AtMost(limit) => inspected < limit,
            },
    {
        match self {
            ScanBudget::Unlimited => true,
            ScanBudget::AtMost(limit) => inspected < limit,
        }
    }
}

/// What an entry standing where a directory was expected is called, or
/// `None` for a directory.
pub fn mismatched_dir_kind(child_type: ChildType) -> (r: Option<&'static str>)
    ensures
        match child_type {
            ChildType::Directory => r is None,
            ChildType::Symlink => r matches Some(s) && s@ == "symlink"@,
            _ => r matches Some(s) && s@ == "non-directory"@,
        },
{
    match child_type {
        ChildType::Directory => None,
        ChildType::Symlink => Some("symlink"),
        ChildType::RegularFile => Some("non-directory"),
        ChildType::Other => Some("non-directory"),
    }
}

/// What an entry standing where a write expected a file of its own is
/// called, or `None` for a regular file, which a publishing rename may
/// replace.
pub fn describe_unreplaceable_child_type(child_type: ChildType) -> (r: Option<&'static str>)
    ensures
        match child_type {
            ChildType::RegularFile => r is None,
            ChildType::Symlink => r matches Some(s) && s@ == "symlink"@,
            ChildType::Directory => r matches Some(s) && s@ == "directory"@,
            ChildType::Other => r matches Some(s) && s@ == "non-regular file"@,
        },
{
    match child_type {
        ChildType::RegularFile => None,
        ChildType::Symlink => Some("symlink"),
        ChildType::Directory => Some("directory"),
        ChildType::Other => Some("non-regular file"),
    }
}

/// Whether a directory belongs to local state, whose refusals name a
/// recovery route, or is an ordinary one.
#[derive(Debug, Clone, Copy, PartialEq, Eq, Structural)]
pub enum DirectoryScope {
    Generic,
    LocalState,
}

/// The refusal of an operation on a directory of `scope`.
pub fn scoped_invalid_operation_error(scope: DirectoryScope, message: String) -> (e: Error)
    ensures
        e.kind == ErrorKind::InvalidOperation,
        e.code is None,
        e.message@ == message@,
        match scope {
            DirectoryScope::Generic => e.recovery is None,
            DirectoryScope::LocalState => has_recovery(e, local_state_path_unsafe()),
        },
{
    match scope {
        DirectoryScope::Generic => Error::build_invalid_operation_error(message),
        DirectoryScope::LocalState => Error::build_local_state_path_unsafe_error(message),
    }
}


/// Each character takes at least one byte.
proof fn lemma_utf8_len_at_least_chars(s: Seq<char>)
    ensures
        utf8_len(s) >= s.len(),
    decreases s.len(),
{
    if s.len() > 0 {
        lemma_utf8_len_at_least_chars(s.drop_first());
    }
}

/// Text of one-byte characters takes a byte per character.
proof fn lemma_utf8_len_single_bytes(s: Seq<char>)
    requires
        forall|i: int| 0 <= i < s.len() ==> char_utf8_len(#[trigger] s[i]) == 1,
    ensures
        utf8_len(s) == s.len(),
    decreases s.len(),
{
    if s.len() > 0 {
        assert forall|i: int| 0 <= i < s.drop_first().len() implies char_utf8_len(
            #[trigger] s.drop_first()[i],
        ) == 1 by {
            assert(s.drop_first()[i] == s[i + 1]);
        }
        lemma_utf8_len_single_bytes(s.drop_first());
    }
}

/// The hyphenated text of an identifier is ASCII: 36 characters, 36 bytes.
proof fn lemma_hyphenated_text_bytes(id: u128)
    ensures
        utf8_len(hyphenated_text(id)) == 36,
{
    let t = hyphenated_text(id);
    assert forall|p: int| 0 <= p < t.len() implies char_utf8_len(#[trigger] t[p]) == 1 by {
        if !is_hyphen_position(p) {
            let n = (id as int / pow2((4 * (31 - digit_index(p))) as nat) as int) % 16;
            assert(n == 0 || n == 1 || n == 2 || n == 3 || n == 4 || n == 5 || n == 6 || n == 7
                || n == 8 || n == 9 || n == 10 || n == 11 || n == 12 || n == 13 || n == 14 || n
                == 15);
        }
    }
    lemma_utf8_len_single_bytes(t);
}

/// Every name `unique_staging_dir_name` gives is recognised as a staged
/// entry by `is_write_staging_name`.
pub proof fn lemma_staged_dir_name_is_recognised(id: u128)
    ensures
        is_staging_name(".tmp-"@ + hyphenated_text(id)),
{
    reveal_strlit(".tmp-");
    let name = ".tmp-"@ + hyphenated_text(id);
    assert(name.take(5) =~= ".tmp-"@);
    assert(name.skip(5) =~= hyphenated_text(id));
    lemma_hyphenated_text_is_uuid(id);
    lemma_hyphenated_text_bytes(id);
}

/// Every name `unique_write_staging_name` gives a target is recognised as a
/// staged entry by `is_write_staging_name`, unless the target is empty or
/// begins with `tmp-` (the name then reads as a staged directory's).
pub proof fn lemma_staged_write_name_is_recognised(target: Seq<char>, id: u128)
    requires
        target.len() > 0,
        !starts_with(target, "tmp-"@),
    ensures
        is_staging_name("."@ + target + ".tmp."@ + hyphenated_text(id)),
{
    reveal_strlit(".");
    reveal_strlit(".tmp.");
    reveal_strlit(".tmp-");
    reveal_strlit("tmp-");
    let u = hyphenated_text(id);
    let name = "."@ + target + ".tmp."@ + u;
    let i: int = 1 + target.len() as int;
    lemma_hyphenated_text_is_uuid(id);
    lemma_hyphenated_text_bytes(id);
    assert(name.len() == i + 5 + 36);
    assert forall|k: int| 0 <= k < target.len() implies name[1 + k] == #[trigger] target[k] by {}
    assert forall|k: int| 0 <= k < 36 implies name[i + 5 + k] == #[trigger] u[k] by {}
    // Not a staged directory's name.
    if starts_with(name, ".tmp-"@) {
        assert(name.take(5)[4] == '-');
        if target.len() >= 4 {
            assert(target.take(4) =~= "tmp-"@) by {
                assert forall|k: int| 0 <= k < 4 implies target.take(4)[k] == "tmp-"@[k] by {
                    assert(name.take(5)[k + 1] == ".tmp-"@[k + 1]);
                }
            }
        } else {
            assert(name[i] == '.');
            assert(name.take(5)[i] == ".tmp-"@[i]);
        }
    }
    // The mark before the identifier is the last one.
    assert(name.subrange(i, i + 5) =~= ".tmp."@);
    assert forall|j: int| i < j implies !crate::text::occurs_at(name, ".tmp."@, j) by {
        if crate::text::occurs_at(name, ".tmp."@, j) {
            assert(name.subrange(j, j + 5)[0] == '.');
            if j < i + 4 {
                assert(name[j] == ".tmp."@[j - i]);
            } else if j == i + 4 {
                assert(name.subrange(j, j + 5)[1] == 't');
                assert(name[j + 1] == u[0]);
            } else {
                assert(name[j] == u[j - i - 5]);
                assert(is_hyphen_position(j - i - 5) || is_hex_char(u[j - i - 5]));
            }
        }
    }
    assert(last_staging_mark_at(name, i));
    assert(name.take(i) =~= "."@ + target);
    lemma_utf8_len_concat("."@, target);
    lemma_utf8_len_at_least_chars(target);
    assert(name.skip(i + 5) =~= u);
    assert(utf8_len(name.take(i)) > 1);
}

/// A target that passes `check_atomic_write_target_name` stages under a
/// name that still fits a directory entry.
pub proof fn lemma_staged_write_name_fits(target: Seq<char>, id: u128)
    requires
        utf8_len(target) <= MAX_ATOMIC_WRITE_TARGET_NAME_LENGTH,
    ensures
        utf8_len("."@ + target + ".tmp."@ + hyphenated_text(id)) <= MAX_FILE_NAME_LENGTH,
{
    reveal_strlit(".");
    reveal_strlit(".tmp.");
    let u = hyphenated_text(id);
    lemma_hyphenated_text_bytes(id);
    lemma_utf8_len_concat("."@, target);
    lemma_utf8_len_concat("."@ + target, ".tmp."@);
    lemma_utf8_len_concat("."@ + target + ".tmp."@, u);
    assert(utf8_len("."@) == 1) by {
        reveal_with_fuel(utf8_len, 2);
    }
    assert(utf8_len(".tmp."@) == 5) by {
        reveal_with_fuel(utf8_len, 6);
    }
}

} // verus!
