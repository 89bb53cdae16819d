//! Random identifiers: the ids reviews are bound to, and the hyphenated text
//! of an identifier that names staged directory entries.

use vstd::prelude::*;
use vstd::arithmetic::power2::pow2;
use crate::error::{Error, ErrorKind, Result};
use crate::text::{owned, push_str};

verus! {

/// The version and variant bits of a version 4 UUID, read as a `u128`.
pub const UUID_V4_MARK_MASK: u128 = 0xF000_C000_0000_0000_0000u128;

/// The value those bits hold: version 4, RFC 4122 variant.
pub const UUID_V4_MARK: u128 = 0x4000_8000_0000_0000_0000u128;

/// Fills `buf` from the kernel's random source.
///
/// Calls `rustix::rand::getrandom` with no flags, which returns how many
/// bytes it wrote into `buf` or the system error. The bytes are random, so
/// nothing is stated of them; the count is at most the buffer's length.
#[verifier::external_body]
fn fill_random(buf: &mut [u8; 16]) -> (r: core::result::Result<usize, String>)
    ensures
        r matches Ok(n) ==> n <= 16,
{
    match rustix::rand::getrandom(&mut buf[..], rustix::rand::GetRandomFlags::empty()) {
        Ok(n) => Ok(n),
        Err(e) => Err(e.to_string()),
    }
}

/// The version 4 UUID built from `bytes`, as a `u128`.
///
/// Calls `uuid::Builder::from_random_bytes(bytes).into_uuid().as_u128()`.
/// The builder sets the version nibble to 4 and the variant bits to `10`
/// and keeps the other bits, read big-endian; the marks are stated.
#[verifier::external_body]
fn v4_id_from_bytes(bytes: [u8; 16]) -> (id: u128)
    ensures
        id & UUID_V4_MARK_MASK == UUID_V4_MARK,
{
    uuid::Builder::from_random_bytes(bytes).into_uuid().as_u128()
}

/// A failure to draw random bytes: an I/O error with the system's reason.
pub open spec fn random_failure(e: Error) -> bool {
    &&& e.kind == ErrorKind::Io
    &&& exists|detail: Seq<char>| e.message@ == #[trigger] random_failure_message(detail)
}

pub open spec fn random_failure_message(detail: Seq<char>) -> Seq<char> {
    "Failed to draw random bytes: "@ + detail
}

/// A fresh random identifier (a version 4 UUID), or an I/O error when the
/// kernel's random source fails or returns fewer than 16 bytes.
pub(crate) fn new_random_id() -> (r: Result<u128>)
    ensures
        r matches Ok(id) ==> id & UUID_V4_MARK_MASK == UUID_V4_MARK,
        r matches Err(e) ==> random_failure(e),
{
    let mut bytes = [0u8; 16];
    let drawn = match fill_random(&mut bytes) {
        Ok(n) => n,
        Err(detail) => {
            let mut message = owned("Failed to draw random bytes: ");
            push_str(&mut message, detail.as_str());
            proof {
                assert(message@ == random_failure_message(detail@));
            }
            return Err(Error::build_io_error(message));
        },
    };
    if drawn != 16 {
        let message = owned("Failed to draw random bytes: short read");
        proof {
            reveal_strlit("Failed to draw random bytes: short read");
            reveal_strlit("Failed to draw random bytes: ");
            reveal_strlit("short read");
            assert(message@ == random_failure_message("short read"@));
        }
        return Err(Error::build_io_error(message));
    }
    Ok(v4_id_from_bytes(bytes))
}

/// An identifier carrying the version 4 marks is never the nil id.
pub proof fn lemma_marked_id_is_not_nil(id: u128)
    requires
        id & UUID_V4_MARK_MASK == UUID_V4_MARK,
    ensures
        id != 0,
{
    assert(id & 0xF000_C000_0000_0000_0000u128 == 0x4000_8000_0000_0000_0000u128 ==> id != 0)
        by (bit_vector);
}

/// The lower-case hexadecimal digit of `n` (below 16).
pub open spec fn lower_hex_digit(n: int) -> char {
    seq!['0', '1', '2', '3', '4', '5', '6', '7', '8', '9', 'a', 'b', 'c', 'd', 'e', 'f'][n]
}

/// Position `p` of a hyphenated UUID holds a hyphen.
pub open spec fn is_hyphen_position(p: int) -> bool {
    p == 8 || p == 13 || p == 18 || p == 23
}

/// Which of the 32 hexadecimal digits stands at position `p` of the
/// hyphenated form, counting from the most significant.
pub open spec fn digit_index(p: int) -> int {
    if p < 8 {
        p
    } else if p < 13 {
        p - 1
    } else if p < 18 {
        p - 2
    } else if p < 23 {
        p - 3
    } else {
        p - 4
    }
}

/// The hyphenated lower-case text of the 128-bit identifier `id`: its 32
/// hexadecimal digits, most significant first, grouped 8-4-4-4-12.
pub open spec fn hyphenated_text(id: u128) -> Seq<char> {
    Seq::new(
        36,
        |p: int|
            if is_hyphen_position(p) {
                '-'
            } else {
                lower_hex_digit(
                    (id as int / pow2((4 * (31 - digit_index(p))) as nat) as int) % 16,
                )
            },
    )
}

/// `c` is a hexadecimal digit, in either case.
pub open spec fn is_hex_char(c: char) -> bool {
    ||| '0' as int <= c as int <= '9' as int
    ||| 'a' as int <= c as int <= 'f' as int
    ||| 'A' as int <= c as int <= 'F' as int
}

/// `s` has the hyphenated form of a UUID: 36 characters, hyphens at
/// positions 8, 13, 18 and 23, and hexadecimal digits (either case)
/// everywhere else.
pub open spec fn is_hyphenated_uuid_text(s: Seq<char>) -> bool {
    &&& s.len() == 36
    &&& forall|p: int|
        0 <= p < 36 ==> if is_hyphen_position(p) {
            #[trigger] s[p] == '-'
        } else {
            is_hex_char(s[p])
        }
}

/// The hyphenated text of `id`.
///
/// Calls `uuid::Uuid::from_u128` and formats the UUID with `to_string`. The
/// crate's source builds the UUID from the big-endian bytes of `id` and
/// prints each byte as two lower-case hexadecimal digits, with hyphens after
/// the 4th, 6th, 8th and 10th byte.
#[verifier::external_body]
pub(crate) fn hyphenated_id(id: u128) -> (s: String)
    ensures
        s@ == hyphenated_text(id),
{
    uuid::Uuid::from_u128(id).to_string()
}

/// Whether `uuid::Uuid::parse_str` accepts the 36-byte text `value`.
///
/// Calls `uuid::Uuid::parse_str`. For an input of 36 bytes the crate's
/// parser accepts exactly the hyphenated form: a hyphen at bytes 8, 13, 18
/// and 23 and a hexadecimal digit in either case at every other byte. Such a
/// text is ASCII, so its bytes are its characters.
#[verifier::external_body]
pub(crate) fn parses_as_uuid(value: &str) -> (r: bool)
    requires
        vstd::utf8::encode_utf8(value@).len() == 36,
    ensures
        r == is_hyphenated_uuid_text(value@),
{
    uuid::Uuid::parse_str(value).is_ok()
}

/// The hyphenated text of every identifier has the form `parse_str` accepts.
pub proof fn lemma_hyphenated_text_is_uuid(id: u128)
    ensures
        is_hyphenated_uuid_text(hyphenated_text(id)),
{
    let s = hyphenated_text(id);
    assert forall|p: int| 0 <= p < 36 implies if is_hyphen_position(p) {
        #[trigger] s[p] == '-'
    } else {
        is_hex_char(s[p])
    } by {
        if !is_hyphen_position(p) {
            let n = (id as int / pow2((4 * (31 - digit_index(p))) as nat) as int) % 16;
            assert(0 <= n < 16);
            assert(n == 0 || n == 1 || n == 2 || n == 3 || n == 4 || n == 5 || n == 6 || n == 7
                || n == 8 || n == 9 || n == 10 || n == 11 || n == 12 || n == 13 || n == 14 || n
                == 15);
            assert(is_hex_char(lower_hex_digit(n)));
        }
    }
}

} // verus!
