//! Validation of the names an operator hands over: member handles, GitHub
//! logins and the basenames of kv files.

use vstd::prelude::*;
use vstd::string::*;
use crate::error::{Error, ErrorKind, Result};
use crate::limits::{MAX_ATOMIC_WRITE_TARGET_NAME_LENGTH, MAX_MEMBER_HANDLE_LENGTH};
use crate::text::{
    byte_is_ascii_alnum, char_is_ascii_alnum, format_decimal, is_ascii_alnum,
    is_ascii_alnum_byte, lemma_utf8_empty_iff, owned, push_char, push_str,
};

verus! {

/// Length of the `.kvenc` suffix appended to a validated basename.
pub const KV_ENC_EXTENSION_LENGTH: usize = 6;

/// Longest login GitHub issues.
pub const MAX_GITHUB_LOGIN_LENGTH: usize = 39;

/// A character a member handle may hold: `[A-Za-z0-9.@_+-]`.
pub open spec fn is_member_handle_char(c: char) -> bool {
    is_ascii_alnum(c) || c == '.' || c == '@' || c == '_' || c == '+' || c == '-'
}

/// `id` is a valid member handle: non-empty, at most
/// `MAX_MEMBER_HANDLE_LENGTH` bytes, starting with an ASCII letter or digit and
/// made of handle characters only.
pub open spec fn is_valid_member_handle(id: Seq<char>) -> bool {
    &&& id.len() > 0
    &&& vstd::utf8::encode_utf8(id).len() <= MAX_MEMBER_HANDLE_LENGTH
    &&& is_ascii_alnum(id[0])
    &&& forall|i: int| 0 <= i < id.len() ==> is_member_handle_char(#[trigger] id[i])
}

/// `login` (its UTF-8 bytes) is a valid GitHub login: 1 to 39 bytes of ASCII
/// letters, digits and single hyphens, beginning and ending with a letter or
/// digit.
pub open spec fn is_valid_github_login(login: Seq<u8>) -> bool {
    &&& 0 < login.len() <= MAX_GITHUB_LOGIN_LENGTH
    &&& is_ascii_alnum_byte(login[0])
    &&& is_ascii_alnum_byte(login.last())
    &&& forall|i: int|
        0 <= i < login.len() ==> is_ascii_alnum_byte(#[trigger] login[i]) || login[i] == 0x2d
    &&& forall|i: int| 0 <= i < login.len() - 1 ==> !(#[trigger] login[i] == 0x2d && login[i + 1] == 0x2d)
}

/// A byte a kv basename may hold: printable ASCII other than `/` and `\`.
pub open spec fn is_kv_basename_byte(b: u8) -> bool {
    0x20 <= b <= 0x7e && b != 0x2f && b != 0x5c
}

/// Longest kv basename: the atomic-write budget less the `.kvenc` suffix.
pub open spec fn max_kv_basename_length() -> int {
    MAX_ATOMIC_WRITE_TARGET_NAME_LENGTH - KV_ENC_EXTENSION_LENGTH
}

/// `name` is a plain basename safe to place under the secrets directory.
pub open spec fn is_valid_kv_basename(name: &str) -> bool {
    &&& name@.len() > 0
    &&& name@[0] != '.'
    &&& forall|i: int|
        0 <= i < name.spec_bytes().len() ==> is_kv_basename_byte(#[trigger] name.spec_bytes()[i])
    &&& name.spec_bytes().len() <= max_kv_basename_length()
}

/// Validate a member handle.
pub fn validate_member_handle(id: &str) -> (r: Result<()>)
    ensures
        r is Ok <==> is_valid_member_handle(id@),
        r matches Err(e) ==> e.kind == ErrorKind::InvalidArgument,
{
    ensure_member_handle_length(id)?;
    ensure_member_handle_starts_alphanumeric(id)?;
    ensure_member_handle_characters(id)
}

fn ensure_member_handle_length(id: &str) -> (r: Result<()>)
    ensures
        r is Ok <==> id@.len() > 0 && id.spec_bytes().len() <= MAX_MEMBER_HANDLE_LENGTH,
        r matches Err(e) ==> e.kind == ErrorKind::InvalidArgument,
{
    if id.is_empty() {
        return Err(Error::build_invalid_argument_error(owned("member_handle cannot be empty")));
    }
    if id.as_bytes().len() > MAX_MEMBER_HANDLE_LENGTH {
        let mut message = owned("member_handle too long: ");
        push_str(&mut message, format_decimal(id.as_bytes().len() as u64).as_str());
        push_str(&mut message, " chars (max ");
        push_str(&mut message, format_decimal(MAX_MEMBER_HANDLE_LENGTH as u64).as_str());
        push_str(&mut message, ")");
        return Err(Error::build_invalid_argument_error(message));
    }
    Ok(())
}

fn ensure_member_handle_starts_alphanumeric(id: &str) -> (r: Result<()>)
    ensures
        r is Ok <==> id@.len() > 0 && is_ascii_alnum(id@[0]),
        r matches Err(e) ==> e.kind == ErrorKind::InvalidArgument,
{
    let mut chars = id.chars();
    match chars.next() {
        Some(first) => {
            if char_is_ascii_alnum(first) {
                Ok(())
            } else {
                let mut message = owned("member_handle must start with alphanumeric: '");
                push_str(&mut message, id);
                push_str(&mut message, "'");
                Err(Error::build_invalid_argument_error(message))
            }
        },
        None => Err(Error::build_invalid_argument_error(owned("member_handle cannot be empty"))),
    }
}

fn ensure_member_handle_characters(id: &str) -> (r: Result<()>)
    ensures
        r is Ok <==> forall|i: int| 0 <= i < id@.len() ==> is_member_handle_char(#[trigger] id@[i]),
        r matches Err(e) ==> e.kind == ErrorKind::InvalidArgument,
{
    for c in it: id.chars()
        invariant
            it.seq() == id@,
            forall|j: int| 0 <= j < it.index() ==> is_member_handle_char(#[trigger] id@[j]),
    {
        if !(char_is_ascii_alnum(c) || c == '.' || c == '@' || c == '_' || c == '+' || c == '-') {
            let mut message = owned("invalid character '");
            push_char(&mut message, c);
            push_str(&mut message, "' in member_handle (only [A-Za-z0-9.@_+-])");
            return Err(Error::build_invalid_argument_error(message));
        }
    }
    Ok(())
}

/// Validate a GitHub login used for REST `/users/{login}` lookups.
pub fn validate_github_login(login: &str) -> (r: Result<()>)
    ensures
        r is Ok <==> is_valid_github_login(login.spec_bytes()),
        r matches Err(e) ==> e.kind == ErrorKind::InvalidArgument,
{
    ensure_github_login_length(login)?;
    ensure_github_login_boundaries(login)?;
    ensure_github_login_characters(login)
}

fn ensure_github_login_length(login: &str) -> (r: Result<()>)
    ensures
        r is Ok <==> 0 < login.spec_bytes().len() <= MAX_GITHUB_LOGIN_LENGTH,
        r matches Err(e) ==> e.kind == ErrorKind::InvalidArgument,
{
    proof {
        lemma_utf8_empty_iff(login@);
    }
    if login.is_empty() {
        return Err(Error::build_invalid_argument_error(owned("GitHub login cannot be empty")));
    }
    if login.as_bytes().len() > MAX_GITHUB_LOGIN_LENGTH {
        let mut message = owned("GitHub login too long: ");
        push_str(&mut message, format_decimal(login.as_bytes().len() as u64).as_str());
        push_str(&mut message, " chars (max ");
        push_str(&mut message, format_decimal(MAX_GITHUB_LOGIN_LENGTH as u64).as_str());
        push_str(&mut message, ")");
        return Err(Error::build_invalid_argument_error(message));
    }
    Ok(())
}

fn ensure_github_login_boundaries(login: &str) -> (r: Result<()>)
    requires
        login.spec_bytes().len() > 0,
    ensures
        r is Ok <==> is_ascii_alnum_byte(login.spec_bytes()[0]) && is_ascii_alnum_byte(
            login.spec_bytes().last(),
        ),
        r matches Err(e) ==> e.kind == ErrorKind::InvalidArgument,
{
    let bytes = login.as_bytes();
    if !byte_is_ascii_alnum(bytes[0]) {
        let mut message = owned("GitHub login must start with alphanumeric: '");
        push_str(&mut message, login);
        push_str(&mut message, "'");
        return Err(Error::build_invalid_argument_error(message));
    }
    if !byte_is_ascii_alnum(bytes[bytes.len() - 1]) {
        let mut message = owned("GitHub login must end with alphanumeric: '");
        push_str(&mut message, login);
        push_str(&mut message, "'");
        return Err(Error::build_invalid_argument_error(message));
    }
    Ok(())
}

fn ensure_github_login_characters(login: &str) -> (r: Result<()>)
    ensures
        r is Ok <==> (forall|i: int|
            0 <= i < login.spec_bytes().len() ==> is_ascii_alnum_byte(
                #[trigger] login.spec_bytes()[i],
            ) || login.spec_bytes()[i] == 0x2d) && (forall|i: int|
            0 <= i < login.spec_bytes().len() - 1 ==> !(#[trigger] login.spec_bytes()[i] == 0x2d
                && login.spec_bytes()[i + 1] == 0x2d)),
        r matches Err(e) ==> e.kind == ErrorKind::InvalidArgument,
{
    let bytes = login.as_bytes();
    let ghost b = login.spec_bytes();
    let mut previous_hyphen = false;
    let mut i: usize = 0;
    while i < bytes.len()
        invariant
            bytes@ == b,
            b == login.spec_bytes(),
            i <= b.len(),
            forall|j: int| 0 <= j < i ==> is_ascii_alnum_byte(#[trigger] b[j]) || b[j] == 0x2d,
            forall|j: int| 0 <= j < i - 1 ==> !(#[trigger] b[j] == 0x2d && b[j + 1] == 0x2d),
            previous_hyphen == (i > 0 && b[i - 1] == 0x2d),
        decreases b.len() - i,
    {
        let byte = bytes[i];
        if byte == 0x2d {
            if previous_hyphen {
                let mut message = owned("GitHub login must not contain consecutive hyphens: '");
                push_str(&mut message, login);
                push_str(&mut message, "'");
                proof {
                    let k = i - 1;
                    assert(login.spec_bytes()[k] == 0x2d && login.spec_bytes()[k + 1] == 0x2d);
                }
                return Err(Error::build_invalid_argument_error(message));
            }
            previous_hyphen = true;
            i = i + 1;
            continue;
        }
        if !byte_is_ascii_alnum(byte) {
            let mut message = owned("invalid character '");
            push_char(&mut message, byte as char);
            push_str(&mut message, "' in GitHub login (only [A-Za-z0-9-])");
            assert(!(is_ascii_alnum_byte(login.spec_bytes()[i as int]) || login.spec_bytes()[i as int]
                == 0x2d));
            return Err(Error::build_invalid_argument_error(message));
        }
        previous_hyphen = false;
        i = i + 1;
    }
    Ok(())
}

/// Validate a kv file basename: it is interpolated into
/// `<workspace>/secrets/<name>.kvenc`, so it must be a plain, printable name.
pub fn validate_kv_file_basename(name: &str) -> (r: Result<()>)
    ensures
        r is Ok <==> is_valid_kv_basename(name),
        r matches Err(e) ==> e.kind == ErrorKind::InvalidArgument,
{
    ensure_kv_basename_is_a_plain_name(name)?;
    ensure_kv_basename_bytes(name)?;
    ensure_kv_basename_length(name)
}

fn ensure_kv_basename_is_a_plain_name(name: &str) -> (r: Result<()>)
    ensures
        r is Ok <==> name@.len() > 0 && name@[0] != '.',
        r matches Err(e) ==> e.kind == ErrorKind::InvalidArgument,
{
    if name.is_empty() {
        return Err(Error::build_invalid_argument_error(owned("name cannot be empty")));
    }
    let mut chars = name.chars();
    if chars.next() == Some('.') {
        let mut message = owned("name must not start with '.': '");
        push_str(&mut message, name);
        push_str(&mut message, "'");
        return Err(Error::build_invalid_argument_error(message));
    }
    Ok(())
}

fn ensure_kv_basename_bytes(name: &str) -> (r: Result<()>)
    ensures
        r is Ok <==> forall|i: int|
            0 <= i < name.spec_bytes().len() ==> is_kv_basename_byte(#[trigger] name.spec_bytes()[i]),
        r matches Err(e) ==> e.kind == ErrorKind::InvalidArgument,
{
    let bytes = name.as_bytes();
    let mut i: usize = 0;
    while i < bytes.len()
        invariant
            bytes@ == name.spec_bytes(),
            i <= bytes@.len(),
            forall|j: int| 0 <= j < i ==> is_kv_basename_byte(#[trigger] bytes@[j]),
        decreases bytes@.len() - i,
    {
        let b = bytes[i];
        if b == 0x2f || b == 0x5c || b == 0 || !(0x20 <= b && b <= 0x7e) {
            let mut message = owned("invalid byte 0x");
            push_hex_byte(&mut message, b);
            push_str(&mut message, " in name (only printable ASCII without '/' or '\\\\')");
            return Err(Error::build_invalid_argument_error(message));
        }
        i = i + 1;
    }
    Ok(())
}

/// Append `b` as two lower-case hexadecimal digits.
fn push_hex_byte(s: &mut String, b: u8)
    ensures
        final(s)@.len() == old(s)@.len() + 2,
        final(s)@.take(old(s)@.len() as int) == old(s)@,
{
    push_char(s, hex_digit(b / 16));
    push_char(s, hex_digit(b % 16));
}

fn hex_digit(d: u8) -> (c: char)
    requires
        d < 16,
    ensures
        d < 10 ==> c as u32 == 0x30 + d,
        d >= 10 ==> c as u32 == 0x61 + d - 10,
{
    if d < 10 {
        (0x30u8 + d) as char
    } else {
        (0x61u8 + d - 10) as char
    }
}

fn ensure_kv_basename_length(name: &str) -> (r: Result<()>)
    ensures
        r is Ok <==> name.spec_bytes().len() <= max_kv_basename_length(),
        r matches Err(e) ==> e.kind == ErrorKind::InvalidArgument,
{
    let max_name = MAX_ATOMIC_WRITE_TARGET_NAME_LENGTH - KV_ENC_EXTENSION_LENGTH;
    if name.as_bytes().len() > max_name {
        let mut message = owned("name too long: ");
        push_str(&mut message, format_decimal(name.as_bytes().len() as u64).as_str());
        push_str(&mut message, " chars (max ");
        push_str(&mut message, format_decimal(max_name as u64).as_str());
        push_str(&mut message, ")");
        return Err(Error::build_invalid_argument_error(message));
    }
    Ok(())
}

} // verus!
