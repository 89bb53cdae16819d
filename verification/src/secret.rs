//! Secret-bearing values that are cleared from memory when dropped.
//!
//! The bytes live inside `zeroize::Zeroizing`, which overwrites them with
//! zeros on drop, so no copy outlives the value that owns it.

use vstd::prelude::*;
use vstd::utf8::{decode_utf8, valid_utf8};
use zeroize::Zeroizing;

verus! {

/// A byte buffer held in `zeroize::Zeroizing`, which overwrites it with zeros
/// when dropped. The buffer is opaque; `zeroized_bytes` names what it holds.
#[verifier::external_body]
pub struct ZeroizingBytes {
    inner: Zeroizing<Vec<u8>>,
}

/// Text held in `zeroize::Zeroizing`, overwritten with zeros when dropped.
#[verifier::external_body]
pub struct ZeroizingText {
    inner: Zeroizing<String>,
}

/// The bytes a zeroizing buffer holds.
pub uninterp spec fn zeroized_bytes(z: ZeroizingBytes) -> Seq<u8>;

/// The text a zeroizing string holds.
pub uninterp spec fn zeroized_text(z: ZeroizingText) -> Seq<char>;

impl ZeroizingBytes {
    /// Calls `zeroize::Zeroizing::new`, which stores the buffer unchanged
    /// (the crate's source wraps the value as it is) and zeroes it on drop.
    #[verifier::external_body]
    pub(crate) fn wrap(bytes: Vec<u8>) -> (z: ZeroizingBytes)
        ensures
            zeroized_bytes(z) == bytes@,
    {
        ZeroizingBytes { inner: Zeroizing::new(bytes) }
    }

    /// Borrows the buffer through `Zeroizing`'s `Deref`, which returns the
    /// stored value itself.
    #[verifier::external_body]
    pub(crate) fn as_slice(&self) -> (s: &[u8])
        ensures
            s@ == zeroized_bytes(*self),
    {
        self.inner.as_slice()
    }

    /// Moves the buffer out through `Zeroizing`'s `DerefMut` with
    /// `std::mem::take`, leaving an empty buffer behind to be zeroed on drop.
    #[verifier::external_body]
    pub(crate) fn take(self) -> (bytes: Vec<u8>)
        ensures
            bytes@ == zeroized_bytes(self),
    {
        let mut z = self.inner;
        std::mem::take(&mut *z)
    }
}

impl ZeroizingText {
    /// Calls `zeroize::Zeroizing::new` on text; the value is stored unchanged.
    #[verifier::external_body]
    pub(crate) fn wrap(text: String) -> (z: ZeroizingText)
        ensures
            zeroized_text(z) == text@,
    {
        ZeroizingText { inner: Zeroizing::new(text) }
    }

    /// Borrows the text through `Zeroizing`'s `Deref`.
    #[verifier::external_body]
    pub(crate) fn as_str(&self) -> (s: &str)
        ensures
            s@ == zeroized_text(*self),
    {
        self.inner.as_str()
    }

    /// Moves the text out through `Zeroizing`'s `DerefMut` with
    /// `std::mem::take`, leaving an empty string behind.
    #[verifier::external_body]
    pub(crate) fn take(self) -> (text: String)
        ensures
            text@ == zeroized_text(self),
    {
        let mut z = self.inner;
        std::mem::take(&mut *z)
    }
}

/// Secret bytes that are cleared from memory on drop.
pub struct SecretBytes(ZeroizingBytes);

impl View for SecretBytes {
    type V = Seq<u8>;

    closed spec fn view(&self) -> Seq<u8> {
        zeroized_bytes(self.0)
    }
}

impl SecretBytes {
    /// Wrap owned secret bytes.
    pub fn new(bytes: Vec<u8>) -> (s: SecretBytes)
        ensures
            s@ == bytes@,
    {
        SecretBytes(ZeroizingBytes::wrap(bytes))
    }

    /// Take ownership of a zeroizing buffer without copying it.
    pub fn from_zeroizing(bytes: ZeroizingBytes) -> (s: SecretBytes)
        ensures
            s@ == zeroized_bytes(bytes),
    {
        SecretBytes(bytes)
    }

    /// Borrow the secret bytes.
    pub fn as_bytes(&self) -> (b: &[u8])
        ensures
            b@ == self@,
    {
        self.0.as_slice()
    }

    /// Give the bytes up as a zeroizing buffer.
    pub fn into_zeroizing_vec(self) -> (z: ZeroizingBytes)
        ensures
            zeroized_bytes(z) == self@,
    {
        self.0
    }
}

/// Secret text that is cleared from memory on drop.
pub struct SecretString(ZeroizingText);

impl View for SecretString {
    type V = Seq<char>;

    closed spec fn view(&self) -> Seq<char> {
        zeroized_text(self.0)
    }
}

impl SecretString {
    /// Wrap owned secret text.
    pub fn new(value: String) -> (s: SecretString)
        ensures
            s@ == value@,
    {
        SecretString(ZeroizingText::wrap(value))
    }

    /// Take ownership of a zeroizing string without copying it.
    pub fn from_zeroizing(value: ZeroizingText) -> (s: SecretString)
        ensures
            s@ == zeroized_text(value),
    {
        SecretString(value)
    }

    /// Borrow the secret text.
    pub fn as_str(&self) -> (t: &str)
        ensures
            t@ == self@,
    {
        self.0.as_str()
    }

    fn take_plain_string(self) -> (t: String)
        ensures
            t@ == self@,
    {
        self.0.take()
    }

    /// Convert secret text into a plain `String` at an explicit output
    /// boundary; from there on it is no longer cleared on drop.
    pub fn into_plain_string_for_output(self) -> (t: String)
        ensures
            t@ == self@,
    {
        self.take_plain_string()
    }

    /// Whether two secrets hold the same text.
    pub fn same_text(&self, other: &SecretString) -> (r: bool)
        ensures
            r == (self@ == other@),
    {
        crate::model::text_eq(self.as_str(), other.as_str())
    }

    /// Check secret bytes for UTF-8 and keep them as secret text. Invalid
    /// bytes are cleared before the error is returned, and the error carries
    /// only where decoding failed.
    pub fn try_from_bytes(value: SecretBytes) -> (r: core::result::Result<SecretString, SecretUtf8Error>)
        ensures
            valid_utf8(value@) ==> (r matches Ok(s) && s@ == decode_utf8(
                value@,
            )),
            !valid_utf8(value@) ==> (r matches Err(e) && e.valid_up_to <= value@.len()),
    {
        let raw = value.into_zeroizing_vec().take();
        match string_from_utf8(raw) {
            Ok(text) => Ok(SecretString::new(text)),
            Err(refusal) => {
                let Utf8Refusal { bytes, valid_up_to, error_len } = refusal;
                let cleared = ZeroizingBytes::wrap(bytes);
                drop_zeroizing(cleared);
                Err(SecretUtf8Error { valid_up_to, error_len })
            },
        }
    }

    /// Check a zeroizing buffer for UTF-8 and keep it as secret text.
    pub fn try_from_zeroizing(value: ZeroizingBytes) -> (r: core::result::Result<SecretString, SecretUtf8Error>)
        ensures
            valid_utf8(zeroized_bytes(value)) ==> (r matches Ok(s) && s@
                == decode_utf8(zeroized_bytes(value))),
            !valid_utf8(zeroized_bytes(value)) ==> r is Err,
    {
        SecretString::try_from_bytes(SecretBytes::from_zeroizing(value))
    }
}

/// Release a zeroizing buffer now; its `Drop` overwrites the bytes.
pub(crate) fn drop_zeroizing(z: ZeroizingBytes) {
}

/// Calls `String::from_utf8`. The standard library documents that it accepts
/// exactly the byte sequences that are valid UTF-8, keeping the bytes as the
/// string; a refusal hands the bytes back with `valid_up_to`, documented as
/// the largest index such that the bytes before it decode, and `error_len`,
/// the length of the bad sequence when one was found (of which nothing more
/// is stated).
#[verifier::external_body]
pub(crate) fn string_from_utf8(bytes: Vec<u8>) -> (r: core::result::Result<String, Utf8Refusal>)
    ensures
        r is Ok <==> valid_utf8(bytes@),
        r matches Ok(s) ==> s@ == decode_utf8(bytes@),
        r matches Err(e) ==> e.bytes@ == bytes@ && e.valid_up_to <= bytes@.len() && valid_utf8(
            bytes@.take(e.valid_up_to as int),
        ) && forall|k: int|
            e.valid_up_to < k <= bytes@.len() ==> !valid_utf8(#[trigger] bytes@.take(k)),
{
    match String::from_utf8(bytes) {
        Ok(text) => Ok(text),
        Err(err) => {
            let e = err.utf8_error();
            let error_len = match e.error_len() { Some(n) => Some(n as u8), None => None };
            Err(Utf8Refusal { valid_up_to: e.valid_up_to(), error_len, bytes: err.into_bytes() })
        },
    }
}

/// Bytes `String::from_utf8` refused, with where decoding stopped.
pub(crate) struct Utf8Refusal {
    pub(crate) bytes: Vec<u8>,
    pub(crate) valid_up_to: usize,
    pub(crate) error_len: Option<u8>,
}

/// Error returned when secret bytes fail UTF-8 validation. It carries only
/// the position of the failure, never the bytes, so it is safe to log.
#[derive(Debug, Clone, Copy)]
pub struct SecretUtf8Error {
    pub valid_up_to: usize,
    pub error_len: Option<u8>,
}

impl SecretUtf8Error {
    /// Where decoding stopped.
    pub fn valid_up_to(&self) -> (n: usize)
        ensures
            n == self.valid_up_to,
    {
        self.valid_up_to
    }
}

} // verus!
