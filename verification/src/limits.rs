//! Resource limits that keep hostile input from exhausting the machine, and
//! the checks that apply them.

use vstd::prelude::*;
use crate::error::{Error, ErrorKind, Result};
use crate::text::{collect_chars, format_decimal, owned, push_str};

verus! {

/// Maximum number of WRAP items per document.
pub const MAX_WRAP_ITEMS: usize = 1_000;

/// Maximum kv-enc file size in bytes (16 MiB).
pub const MAX_KV_ENC_FILE_SIZE: usize = 16_777_216;

/// Maximum JSON document file size in bytes for pre-read validation.
pub const MAX_JSON_DOCUMENT_READ_SIZE: usize = 25_165_824;

/// Maximum SSH public key file size in bytes.
pub const MAX_SSH_PUBLIC_KEY_FILE_SIZE: usize = 65_536;

/// Maximum OpenSSH config file size in bytes.
pub const MAX_SSH_CONFIG_FILE_SIZE: usize = 1_048_576;

/// Maximum global config.toml size in bytes.
pub const MAX_CONFIG_FILE_SIZE: usize = 1_048_576;

/// Maximum active kid file size in bytes.
pub const MAX_ACTIVE_KID_FILE_SIZE: usize = 256;

/// Maximum member handle length in bytes.
///
/// A member handle names its own `<handle>.json` file, so it has to fit what an
/// atomic write can target once the staging suffix is accounted for.
pub const MAX_MEMBER_HANDLE_LENGTH: usize = 128;

/// Bytes the `.json` suffix adds to a handle used as a file name.
pub const JSON_EXTENSION_LENGTH: usize = 5;

/// Longest file name a POSIX directory entry accepts.
pub const MAX_FILE_NAME_LENGTH: usize = 255;

/// Bytes `.{target}.tmp.{uuid}` adds around the target name: a leading dot, the
/// `.tmp.` separator and a hyphenated UUID.
pub const ATOMIC_WRITE_TEMP_NAME_OVERHEAD: usize = 42;

/// Maximum length of a file name an atomic write may target: the longest
/// entry name less the staging overhead.
pub const MAX_ATOMIC_WRITE_TARGET_NAME_LENGTH: usize = 213;

/// Maximum GitHub API response body size in bytes.
pub const MAX_GITHUB_RESPONSE_SIZE: usize = 1_048_576;

/// Maximum number of KEY lines in a kv-enc document.
pub const MAX_KV_KEY_LINES: usize = 10_000;

/// Maximum length of a single base64url token in bytes.
pub const MAX_BASE64_TOKEN_LENGTH: usize = 1_048_576;

/// Maximum length of base64url ciphertext in bytes (16 MiB).
pub const MAX_BASE64_CIPHERTEXT_LENGTH: usize = 16_777_216;

/// Bytes the AEAD tag adds to a sealed plaintext.
pub const AEAD_TAG_LENGTH: usize = 16;

/// Maximum plaintext input size in bytes for encryption: the largest input
/// whose sealed, base64url-encoded form stays within the ciphertext limit.
pub const MAX_PLAINTEXT_INPUT_SIZE: usize = 12_582_896;

/// Maximum JSON nesting depth.
pub const MAX_JSON_DEPTH: usize = 32;

/// JSON elements one wrap item contributes.
pub const JSON_ELEMENTS_PER_WRAP_ITEM: usize = 11;

/// Element budget for the document structure outside the wrap array.
pub const JSON_ELEMENTS_DOCUMENT_OVERHEAD: usize = 2_000;

/// Maximum number of JSON elements (objects + arrays + values), derived from
/// the wrap limit so a document with the most recipients stays reachable.
pub const MAX_JSON_ELEMENTS: usize = 13_000;

/// The derived limits are what the rules that define them say they are.
pub proof fn lemma_limits_are_derived()
    ensures
        MAX_ATOMIC_WRITE_TARGET_NAME_LENGTH == MAX_FILE_NAME_LENGTH
            - ATOMIC_WRITE_TEMP_NAME_OVERHEAD,
        ATOMIC_WRITE_TEMP_NAME_OVERHEAD == 1 + 5 + 36,
        MAX_MEMBER_HANDLE_LENGTH + JSON_EXTENSION_LENGTH <= MAX_ATOMIC_WRITE_TARGET_NAME_LENGTH,
        MAX_PLAINTEXT_INPUT_SIZE == MAX_BASE64_CIPHERTEXT_LENGTH / 4 * 3 - AEAD_TAG_LENGTH,
        MAX_JSON_ELEMENTS == MAX_WRAP_ITEMS * JSON_ELEMENTS_PER_WRAP_ITEM
            + JSON_ELEMENTS_DOCUMENT_OVERHEAD,
        MAX_KV_ENC_FILE_SIZE == 16 * 1024 * 1024,
        MAX_JSON_DOCUMENT_READ_SIZE == 24 * 1024 * 1024,
{
}

/// Validate a WRAP item count against the global limit.
pub fn validate_wrap_count(count: usize, context: &str) -> (r: Result<()>)
    ensures
        r is Ok <==> count <= MAX_WRAP_ITEMS,
        r matches Err(e) ==> e.kind == ErrorKind::Parse,
{
    if count <= MAX_WRAP_ITEMS {
        return Ok(());
    }
    let mut message = owned(context);
    push_str(&mut message, " exceeds maximum wrap count (");
    push_str(&mut message, format_decimal(count as u64).as_str());
    push_str(&mut message, " > ");
    push_str(&mut message, format_decimal(MAX_WRAP_ITEMS as u64).as_str());
    push_str(&mut message, ")");
    Err(Error::build_parse_error(message))
}

/// The extension of the last component of `path`, as `Path::extension`
/// reads it: the text after the last `.` of the file name, unless that dot
/// opens the name or there is no dot at all.
pub open spec fn path_extension(path: Seq<char>) -> Option<Seq<char>> {
    let name = file_name_of(path);
    let dot = last_index_of(name, '.');
    if dot <= 0 || name == seq!['.', '.'] {
        None
    } else {
        Some(name.subrange(dot + 1, name.len() as int))
    }
}

/// The text after the last `/` of `path`, once trailing separators and
/// trailing `.` components are removed.
pub open spec fn file_name_of(path: Seq<char>) -> Seq<char> {
    let trimmed = trim_trailing_separators(path);
    trimmed.subrange(last_index_of(trimmed, '/') + 1, trimmed.len() as int)
}

pub open spec fn trim_trailing_separators(path: Seq<char>) -> Seq<char>
    decreases path.len(),
{
    if path.len() > 1 && path.last() == '/' {
        trim_trailing_separators(path.drop_last())
    } else if path.len() > 1 && path.last() == '.' && path[path.len() - 2] == '/' {
        trim_trailing_separators(path.drop_last())
    } else {
        path
    }
}

/// Index of the last `c` in `s`, or -1 when there is none.
pub open spec fn last_index_of(s: Seq<char>, c: char) -> int
    decreases s.len(),
{
    if s.len() == 0 {
        -1
    } else if s.last() == c {
        s.len() - 1
    } else {
        last_index_of(s.drop_last(), c)
    }
}

/// Resolve the pre-read size limit for an encrypted artifact path: `.kvenc`
/// files have their own limit, everything else is read as a JSON document.
pub fn resolve_encrypted_artifact_read_limit(path: &str) -> (limit: usize)
    ensures
        limit == (if path_extension(path@) == Some(seq!['k', 'v', 'e', 'n', 'c']) {
            MAX_KV_ENC_FILE_SIZE
        } else {
            MAX_JSON_DOCUMENT_READ_SIZE
        }),
{
    let chars = collect_chars(path);
    let ext = extension_of(&chars);
    match ext {
        Some(e) => {
            if e.len() == 5 && e[0] == 'k' && e[1] == 'v' && e[2] == 'e' && e[3] == 'n' && e[4]
                == 'c' {
                proof {
                    assert(e@ =~= seq!['k', 'v', 'e', 'n', 'c']);
                }
                MAX_KV_ENC_FILE_SIZE
            } else {
                MAX_JSON_DOCUMENT_READ_SIZE
            }
        },
        None => MAX_JSON_DOCUMENT_READ_SIZE,
    }
}

fn extension_of(chars: &Vec<char>) -> (r: Option<Vec<char>>)
    ensures
        r matches Some(e) ==> path_extension(chars@) == Some(e@),
        r is None ==> path_extension(chars@) is None,
{
    let end = trimmed_end(chars);
    let ghost trimmed = chars@.take(end as int);
    let start = match find_last(chars, 0, end, '/') {
        Some(i) => i + 1,
        None => 0,
    };
    proof {
        assert(chars@.subrange(0, end as int) =~= trimmed);
    }
    let ghost name = trimmed.subrange(start as int, end as int);
    assert(file_name_of(chars@) == name);
    assert(chars@.subrange(start as int, end as int) =~= name);
    let dot = match find_last(chars, start, end, '.') {
        Some(i) => i,
        None => {
            return None;
        },
    };
    if dot == start {
        return None;
    }
    if end - start == 2 && chars[start] == '.' && chars[start + 1] == '.' {
        proof {
            assert(name =~= seq!['.', '.']);
        }
        return None;
    }
    let mut ext: Vec<char> = Vec::new();
    let mut i = dot + 1;
    while i < end
        invariant
            dot < i <= end <= chars.len(),
            ext@ =~= chars@.subrange(dot + 1, i as int),
        decreases end - i,
    {
        ext.push(chars[i]);
        i = i + 1;
    }
    proof {
        assert(name != seq!['.', '.']);
        assert(name.subrange(dot - start + 1, name.len() as int) =~= ext@);
    }
    Some(ext)
}

/// Where the text of `chars` ends once trailing separators and trailing `.`
/// components are removed.
fn trimmed_end(chars: &Vec<char>) -> (end: usize)
    ensures
        end <= chars.len(),
        trim_trailing_separators(chars@) == chars@.take(end as int),
{
    let mut end = chars.len();
    proof {
        assert(chars@.take(end as int) =~= chars@);
    }
    while end > 1 && (chars[end - 1] == '/' || (chars[end - 1] == '.' && chars[end - 2] == '/'))
        invariant
            end <= chars.len(),
            trim_trailing_separators(chars@) == trim_trailing_separators(chars@.take(end as int)),
        decreases end,
    {
        proof {
            assert(chars@.take(end as int).drop_last() =~= chars@.take(end - 1));
        }
        end = end - 1;
    }
    end
}

/// The last position of `c` in `chars[start..end]`.
fn find_last(chars: &Vec<char>, start: usize, end: usize, c: char) -> (r: Option<usize>)
    requires
        start <= end <= chars.len(),
    ensures
        r matches Some(i) ==> start <= i < end && last_index_of(
            chars@.subrange(start as int, end as int),
            c,
        ) == i - start,
        r is None ==> last_index_of(chars@.subrange(start as int, end as int), c) == -1,
{
    let mut k = end;
    while k > start && chars[k - 1] != c
        invariant
            start <= k <= end <= chars.len(),
            last_index_of(chars@.subrange(start as int, end as int), c) == last_index_of(
                chars@.subrange(start as int, k as int),
                c,
            ),
        decreases k,
    {
        proof {
            assert(chars@.subrange(start as int, k as int).drop_last() =~= chars@.subrange(
                start as int,
                k - 1,
            ));
        }
        k = k - 1;
    }
    if k > start {
        Some(k - 1)
    } else {
        None
    }
}

} // verus!
