//! Text on its way into and out of the engine.
//!
//! The engine takes text as bytes that end at the first NUL byte, and hands
//! text out the same way. Going in, a string is its UTF-8 bytes with one NUL
//! byte behind them, which is only faithful when the string holds no NUL byte
//! of its own. Coming out, the bytes in front of the NUL are decoded as UTF-8.

use std::path::PathBuf;
use vstd::prelude::*;
use vstd::string::StringSliceAdditionalSpecFns;
use vstd::utf8::{
    decode_utf8, encode_scalar, encode_utf8, encode_utf8_decode_utf8, encode_utf8_valid_utf8,
    valid_utf8,
};

use crate::error::Error;

verus! {

/// No byte of `bytes` is NUL.
pub open spec fn nul_free(bytes: Seq<u8>) -> bool {
    forall|i: int| 0 <= i < bytes.len() ==> bytes[i] != 0u8
}

/// No character of `text` is the NUL character.
pub open spec fn without_nul(text: Seq<char>) -> bool {
    forall|i: int| 0 <= i < text.len() ==> text[i] != '\0'
}

/// The bytes that stand for `text` in a call: its UTF-8 encoding and the
/// terminating NUL.
pub open spec fn terminated_bytes(text: Seq<char>) -> Seq<u8> {
    encode_utf8(text).push(0u8)
}

/// What the engine reads out of `bytes`: everything in front of the first
/// NUL byte.
pub open spec fn until_nul(bytes: Seq<u8>) -> Seq<u8>
    decreases bytes.len(),
{
    if bytes.len() == 0 || bytes[0] == 0u8 {
        Seq::<u8>::empty()
    } else {
        seq![bytes[0]] + until_nul(bytes.drop_first())
    }
}

/// `core::str::Utf8Error`, which `core::str::from_utf8` returns for bytes that
/// are not UTF-8. Nothing is read from it.
#[verifier::external_type_specification]
#[verifier::external_body]
pub struct ExUtf8Error(core::str::Utf8Error);

/// `core::str::from_utf8` accepts exactly the byte slices that are valid
/// UTF-8, and the string slice it returns is made of the bytes it was given.
pub assume_specification[ core::str::from_utf8 ](v: &[u8]) -> (r: Result<
    &str,
    core::str::Utf8Error,
>)
    ensures
        r is Ok <==> valid_utf8(v@),
        r matches Ok(s) ==> s.spec_bytes() == v@,
;

/// `std::path::PathBuf`, an owned path in the file system. Nothing is read
/// from it here.
#[verifier::external_type_specification]
#[verifier::external_body]
pub struct ExPathBuf(PathBuf);

/// The path that `PathBuf::from` makes of a string.
pub uninterp spec fn path_of(text: Seq<char>) -> PathBuf;

/// `PathBuf::from` on a string slice copies the text of the slice into a new
/// path and looks at nothing else, so the path is a function of the text.
#[verifier::external_body]
pub(crate) fn path_from(text: &str) -> (path: PathBuf)
    ensures
        path == path_of(text@),
{
    PathBuf::from(text)
}

/// Whether `text` can be handed to the engine as it is: whether it is free of
/// the NUL character.
pub fn is_nul_free(text: &str) -> (free: bool)
    ensures
        free == without_nul(text@),
        free == nul_free(text.spec_bytes()),
{
    proof {
        lemma_nul_free_text(text@);
        assert(text.spec_bytes() == encode_utf8(text@));
    }
    let bytes = text.as_bytes();
    let mut i: usize = 0;
    while i < bytes.len()
        invariant
            i <= bytes@.len(),
            bytes@ == text.spec_bytes(),
            nul_free(bytes@) <==> without_nul(text@),
            forall|j: int| 0 <= j < i ==> bytes@[j] != 0u8,
        decreases bytes@.len() - i,
    {
        if bytes[i] == 0 {
            return false;
        }
        i += 1;
    }
    true
}

/// The bytes to hand to the engine for `text`.
pub fn terminated(text: &str) -> (out: Vec<u8>)
    requires
        without_nul(text@),
    ensures
        out@ == terminated_bytes(text@),
        until_nul(out@) == encode_utf8(text@),
{
    let mut out = text.as_bytes_vec();
    out.push(0);
    proof {
        lemma_nul_free_text(text@);
        lemma_until_nul_of_terminated(text.spec_bytes());
    }
    out
}

/// The text that the engine handed out as `bytes`, the terminating NUL left
/// off. It fails exactly when the bytes are not UTF-8.
pub fn decode<'a>(bytes: &'a [u8]) -> (text: Result<&'a str, Error>)
    ensures
        valid_utf8(bytes@) ==> text is Ok && text->Ok_0@ == decode_utf8(bytes@),
        !valid_utf8(bytes@) ==> text == Err::<&str, Error>(Error::DecodeError),
{
    match core::str::from_utf8(bytes) {
        Ok(s) => {
            proof {
                encode_utf8_decode_utf8(s@);
            }
            Ok(s)
        },
        Err(_) => Err(Error::DecodeError),
    }
}

/// The text that the engine handed out as `bytes`, which are known to be
/// UTF-8.
pub fn decode_valid<'a>(bytes: &'a [u8]) -> (text: &'a str)
    requires
        valid_utf8(bytes@),
    ensures
        text@ == decode_utf8(bytes@),
        text@.len() == 0 <==> bytes@.len() == 0,
{
    let text = core::str::from_utf8(bytes).unwrap();
    proof {
        encode_utf8_decode_utf8(text@);
    }
    text
}

/// Reading NUL-free bytes with a NUL behind them gives the bytes back.
pub proof fn lemma_until_nul_of_terminated(bytes: Seq<u8>)
    requires
        nul_free(bytes),
    ensures
        until_nul(bytes.push(0u8)) == bytes,
    decreases bytes.len(),
{
    let sent = bytes.push(0u8);
    if bytes.len() == 0 {
        assert(until_nul(sent) =~= bytes);
    } else {
        assert(sent[0] == bytes[0]);
        assert(sent.drop_first() =~= bytes.drop_first().push(0u8));
        lemma_until_nul_of_terminated(bytes.drop_first());
        assert(seq![bytes[0]] + bytes.drop_first() =~= bytes);
    }
}

/// A string without NUL bytes survives the way into the engine and back: what
/// the engine reads of the bytes sent for it decodes to the string itself.
pub proof fn lemma_text_round_trip(text: Seq<char>)
    requires
        without_nul(text),
    ensures
        valid_utf8(until_nul(terminated_bytes(text))),
        decode_utf8(until_nul(terminated_bytes(text))) == text,
{
    lemma_nul_free_text(text);
    lemma_until_nul_of_terminated(encode_utf8(text));
    encode_utf8_valid_utf8(text);
    encode_utf8_decode_utf8(text);
}

/// Of the bytes that UTF-8 uses for a scalar value, one is NUL only where the
/// value is zero and stands as a single byte.
proof fn lemma_encoded_bits(scalar: u32)
    by (bit_vector)
    ensures
        scalar <= 0x7F ==> (((scalar & 0x7F) as u8 == 0u8) <==> scalar == 0),
        0xC0u8 | ((scalar >> 6) & 0x1F) as u8 != 0u8,
        0xE0u8 | ((scalar >> 12) & 0x0F) as u8 != 0u8,
        0xF0u8 | ((scalar >> 18) & 0x7) as u8 != 0u8,
        0x80u8 | (scalar & 0x3F) as u8 != 0u8,
        0x80u8 | ((scalar >> 6) & 0x3F) as u8 != 0u8,
        0x80u8 | ((scalar >> 12) & 0x3F) as u8 != 0u8,
{
}

/// The encoding of one character holds a NUL byte exactly when the character
/// is NUL.
pub proof fn lemma_nul_free_char(c: char)
    ensures
        nul_free(encode_scalar(c as u32)) <==> c != '\0',
{
    lemma_encoded_bits(c as u32);
    let bytes = encode_scalar(c as u32);
    if c == '\0' {
        assert(bytes[0] == 0u8);
    }
}

/// A string holds a NUL byte exactly when it holds the NUL character.
pub proof fn lemma_nul_free_text(text: Seq<char>)
    ensures
        nul_free(encode_utf8(text)) <==> without_nul(text),
    decreases text.len(),
{
    if text.len() > 0 {
        let head = encode_scalar(text[0] as u32);
        let tail = encode_utf8(text.drop_first());
        lemma_nul_free_char(text[0]);
        lemma_nul_free_text(text.drop_first());
        assert(encode_utf8(text) == head + tail);
        if nul_free(head + tail) {
            assert forall|i: int| 0 <= i < head.len() implies head[i] != 0u8 by {
                assert((head + tail)[i] == head[i]);
            }
            assert forall|i: int| 0 <= i < tail.len() implies tail[i] != 0u8 by {
                assert((head + tail)[head.len() + i] == tail[i]);
            }
            assert forall|i: int| 0 <= i < text.len() implies text[i] != '\0' by {
                if i > 0 {
                    assert(text.drop_first()[i - 1] == text[i]);
                }
            }
        }
        if without_nul(text) {
            assert forall|i: int| 0 <= i < text.drop_first().len() implies text.drop_first()[i]
                != '\0' by {
                assert(text.drop_first()[i] == text[i + 1]);
            }
            assert(nul_free(head + tail));
        }
    }
}

/// Two strings that are sent as the same bytes are the same string.
pub proof fn lemma_terminated_one_to_one(a: Seq<char>, b: Seq<char>)
    requires
        terminated_bytes(a) == terminated_bytes(b),
    ensures
        a == b,
{
    assert(terminated_bytes(a).drop_last() =~= encode_utf8(a));
    assert(terminated_bytes(b).drop_last() =~= encode_utf8(b));
    encode_utf8_decode_utf8(a);
    encode_utf8_decode_utf8(b);
}

} // verus!
