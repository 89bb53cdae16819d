//! What a bounded file read accepts: content within its size limit, and
//! text that decodes as UTF-8. Opening and reading the file is the caller's
//! part; bytes that are refused are wiped before they are dropped.

use vstd::prelude::*;
use crate::error::{Error, ErrorKind, Result};
use crate::secret::{drop_zeroizing, string_from_utf8, ZeroizingBytes};
use vstd::utf8::{decode_utf8, valid_utf8};
use crate::text::{format_decimal, decimal, owned, push_str};

verus! {

/// How many bytes a capped read takes: one more than the limit, so that
/// content over the limit is seen without reading all of it.
pub fn capped_read_length(max_bytes: usize) -> (n: u64)
    ensures
        n == if max_bytes as int + 1 <= u64::MAX { max_bytes as int + 1 } else { u64::MAX as int },
{
    (max_bytes as u64).saturating_add(1)
}

pub open spec fn oversize_message(subject: Seq<char>, max_bytes: nat, display_path: Seq<char>) -> Seq<
    char,
> {
    subject + " exceeds maximum size limit ("@ + decimal(max_bytes) + " bytes): "@ + display_path
}

/// Accept content read under a cap of `max_bytes`; longer content is refused
/// and its bytes are wiped.
pub fn enforce_loaded_size(bytes: Vec<u8>, max_bytes: usize, subject: &str, display_path: &str) -> (r:
    Result<Vec<u8>>)
    ensures
        bytes@.len() <= max_bytes ==> r == Ok::<Vec<u8>, Error>(bytes),
        bytes@.len() > max_bytes ==> (r matches Err(e) && e.kind == ErrorKind::Parse && e.message@
            == oversize_message(subject@, max_bytes as nat, display_path@)),
{
    if bytes.len() <= max_bytes {
        return Ok(bytes);
    }
    let mut message = owned(subject);
    push_str(&mut message, " exceeds maximum size limit (");
    push_str(&mut message, format_decimal(max_bytes as u64).as_str());
    push_str(&mut message, " bytes): ");
    push_str(&mut message, display_path);
    drop_zeroizing(ZeroizingBytes::wrap(bytes));
    Err(Error::build_parse_error(message))
}

/// How a refusal to decode UTF-8 is described: the length of the bad
/// sequence when one was found, and the index up to which the bytes decoded.
pub open spec fn utf8_error_text(valid_up_to: nat, error_len: Option<u8>) -> Seq<char> {
    match error_len {
        Some(n) => "invalid utf-8 sequence of "@ + decimal(n as nat) + " bytes from index "@ + decimal(
            valid_up_to,
        ),
        None => "incomplete utf-8 byte sequence from index "@ + decimal(valid_up_to),
    }
}

pub open spec fn decode_failure_message(
    display_path: Seq<char>,
    valid_up_to: nat,
    error_len: Option<u8>,
) -> Seq<char> {
    "Failed to read file "@ + display_path + ": "@ + utf8_error_text(valid_up_to, error_len)
}

/// `v` is where UTF-8 decoding of `bytes` stops: the bytes before it
/// decode, and no longer prefix does.
pub open spec fn utf8_stop(bytes: Seq<u8>, v: nat) -> bool {
    &&& v <= bytes.len()
    &&& valid_utf8(bytes.take(v as int))
    &&& forall|k: int| v < k <= bytes.len() ==> !valid_utf8(#[trigger] bytes.take(k))
}

/// Describe a refusal to decode UTF-8 from its position and length alone.
fn describe_utf8_error(valid_up_to: usize, error_len: Option<u8>) -> (s: String)
    ensures
        s@ == utf8_error_text(valid_up_to as nat, error_len),
{
    match error_len {
        Some(n) => {
            let mut s = owned("invalid utf-8 sequence of ");
            push_str(&mut s, format_decimal(n as u64).as_str());
            push_str(&mut s, " bytes from index ");
            push_str(&mut s, format_decimal(valid_up_to as u64).as_str());
            s
        },
        None => {
            let mut s = owned("incomplete utf-8 byte sequence from index ");
            push_str(&mut s, format_decimal(valid_up_to as u64).as_str());
            s
        },
    }
}

/// Decode loaded bytes as text; bytes that are not UTF-8 are refused and
/// wiped, with a message that names the file and where decoding stopped,
/// and holds none of the file's bytes.
pub fn decode_loaded_text(bytes: Vec<u8>, display_path: &str) -> (r: Result<String>)
    ensures
        r is Ok <==> valid_utf8(bytes@),
        r matches Ok(s) ==> s@ == decode_utf8(bytes@),
        r matches Err(e) ==> e.kind == ErrorKind::Parse && exists|v: nat, l: Option<u8>|
            utf8_stop(bytes@, v) && e.message@ == #[trigger] decode_failure_message(
                display_path@,
                v,
                l,
            ),
{
    match string_from_utf8(bytes) {
        Ok(text) => Ok(text),
        Err(refusal) => {
            let mut message = owned("Failed to read file ");
            push_str(&mut message, display_path);
            push_str(&mut message, ": ");
            push_str(&mut message, describe_utf8_error(refusal.valid_up_to, refusal.error_len).as_str());
            proof {
                assert(message@ == decode_failure_message(
                    display_path@,
                    refusal.valid_up_to as nat,
                    refusal.error_len,
                ));
                assert(utf8_stop(bytes@, refusal.valid_up_to as nat));
            }
            drop_zeroizing(ZeroizingBytes::wrap(refusal.bytes));
            Err(Error::build_parse_error(message))
        },
    }
}

} // verus!
