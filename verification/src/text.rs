use vstd::prelude::*;
use vstd::utf8::{decode_utf8, encode_utf8, valid_utf8};

verus! {

/// `String::from_utf8` from std: it takes ownership of the bytes and hands back a
/// `String` holding exactly the characters they encode when they are well-formed
/// UTF-8 (no overlong forms, no surrogates, nothing past U+10FFFF), and an error
/// otherwise. The contract claims exactly that, over vstd's `valid_utf8` and
/// `decode_utf8`; the error value is dropped.
#[verifier::external_body]
fn string_from_utf8(bytes: Vec<u8>) -> (res: Option<String>)
    ensures
        res is Some <==> valid_utf8(bytes@),
        res matches Some(s) ==> s@ == decode_utf8(bytes@),
{
    match String::from_utf8(bytes) {
        Ok(s) => Some(s),
        Err(_) => None,
    }
}

/// Decodes a message that the native library wrote as UTF-8 bytes.
///
/// Gives `None` exactly when the bytes are not well-formed UTF-8; otherwise the
/// text, whose UTF-8 encoding is the given bytes again.
pub fn decode_message(bytes: Vec<u8>) -> (res: Option<String>)
    ensures
        res is Some <==> valid_utf8(bytes@),
        res matches Some(s) ==> s@ == decode_utf8(bytes@) && encode_utf8(s@) == bytes@,
{
    let ghost b = bytes@;
    let res = string_from_utf8(bytes);
    proof {
        if valid_utf8(b) {
            vstd::utf8::decode_utf8_encode_utf8(b);
        }
    }
    res
}

/// Whether the bytes are well-formed UTF-8, that is whether `decode_message`
/// accepts them.
pub fn message_is_text(bytes: &Vec<u8>) -> (res: bool)
    ensures
        res == valid_utf8(bytes@),
{
    let copy = bytes.clone();
    assert(copy@ =~= bytes@);
    let decoded = string_from_utf8(copy);
    decoded.is_some()
}

} // verus!
