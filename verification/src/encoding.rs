//! Text encodings that the protocol messages rest on: base64 for binary
//! fields and UTF-8 for what arrives from the wire.

use vstd::prelude::*;
use vstd::utf8::*;

verus! {

#[verifier::external_type_specification]
#[verifier::external_body]
pub struct ExBase64DecodeError(base64::DecodeError);

/// The standard padded base64 text of a byte string, as `base64::encode` produces it.
pub uninterp spec fn base64_text(bytes: Seq<u8>) -> Seq<char>;

/// The bytes that `base64::decode` reads from a text, or `None` where it rejects the text.
pub uninterp spec fn base64_bytes(text: Seq<char>) -> Option<Seq<u8>>;

/// Whether the base64 text of `len` bytes, four characters for every three
/// bytes begun, is short enough to be allocated.
pub open spec fn encodable(len: nat) -> bool {
    4 * ((len + 2) / 3) <= isize::MAX
}

/// Calls `base64::encode`. Trusted: the returned string is the crate's
/// standard encoding of the input, named [`base64_text`]. The crate panics
/// when the size of the output overflows, which `requires` leaves out.
#[verifier::external_body]
fn base64_encode(bytes: &[u8]) -> (text: String)
    requires
        encodable(bytes@.len()),
    ensures
        text@ == base64_text(bytes@),
{
    base64::encode(bytes)
}

/// Calls `base64::decode`. Trusted: the outcome depends on the text alone and
/// is named [`base64_bytes`]; an error means that the crate rejected the text.
#[verifier::external_body]
fn base64_decode(text: &str) -> (decoded: Result<Vec<u8>, base64::DecodeError>)
    ensures
        match decoded {
            Ok(bytes) => base64_bytes(text@) == Some(bytes@),
            Err(_) => base64_bytes(text@) is None,
        },
{
    base64::decode(text)
}

/// Calls `String::from_utf8`. Trusted: it succeeds exactly on well-formed
/// UTF-8 and then returns the characters that the bytes encode.
#[verifier::external_body]
pub(crate) fn string_from_utf8(bytes: Vec<u8>) -> (text: Option<String>)
    ensures
        text is Some <==> valid_utf8(bytes@),
        text matches Some(s) ==> s@ == decode_utf8(bytes@),
{
    String::from_utf8(bytes).ok()
}

/// The base64 text of `bytes`, or `None` when that text would be too long to allocate.
pub fn encode(bytes: &[u8]) -> (text: Option<String>)
    ensures
        match text {
            Some(text) => encodable(bytes@.len()) && text@ == base64_text(bytes@),
            None => !encodable(bytes@.len()),
        },
{
    let len: usize = bytes.len();
    let groups: usize = if len % 3 == 0 {
        len / 3
    } else {
        len / 3 + 1
    };
    let most: usize = (isize::MAX as usize) / 4;
    if groups <= most {
        Some(base64_encode(bytes))
    } else {
        None
    }
}

/// The bytes that a base64 text stands for, or `None` when the text is not valid base64.
pub fn decode(text: &str) -> (bytes: Option<Vec<u8>>)
    ensures
        match bytes {
            Some(bytes) => base64_bytes(text@) == Some(bytes@),
            None => base64_bytes(text@) is None,
        },
{
    match base64_decode(text) {
        Ok(bytes) => Some(bytes),
        Err(_) => None,
    }
}

/// Whether two texts hold the same characters.
pub fn same_text(left: &str, right: &str) -> (same: bool)
    ensures
        same == (left@ == right@),
{
    let left_owned = left.to_owned();
    let right_owned = right.to_owned();
    left_owned == right_owned
}

} // verus!
