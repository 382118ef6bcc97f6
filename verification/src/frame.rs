//! The framing of a message on a pipe: eight bytes that hold the length of
//! the payload, least significant byte first, and then the payload.

use vstd::prelude::*;
use vstd::bytes::lemma_auto_spec_u64_to_from_le_bytes;
use vstd::bytes::spec_u64_from_le_bytes;
use vstd::bytes::spec_u64_to_le_bytes;
use vstd::bytes::u64_from_le_bytes;
use vstd::bytes::u64_to_le_bytes;
use vstd::slice::slice_subrange;
use vstd::slice::slice_to_vec;
use vstd::utf8::decode_utf8;
use vstd::utf8::encode_utf8;
use vstd::utf8::valid_utf8;

verus! {

/// The error of `String::from_utf8`; nothing is read from it.
#[verifier::external_type_specification]
#[verifier::external_body]
pub struct ExFromUtf8Error(std::string::FromUtf8Error);

/// `String::from_utf8` succeeds exactly on well-formed UTF-8 and then gives
/// the string that the bytes encode.
pub assume_specification[ String::from_utf8 ](vec: Vec<u8>) -> (r: Result<
    String,
    std::string::FromUtf8Error,
>)
    ensures
        r is Ok <==> valid_utf8(vec@),
        r matches Ok(s) ==> s@ == decode_utf8(vec@),
;

/// The number of bytes that hold the length.
pub const HEADER_LEN: usize = 8;

/// Why a message could not be read.
#[derive(Clone, Copy, Debug, PartialEq, Eq, Structural)]
pub enum ReadError {
    /// The input ends before the message does.
    UnexpectedEof,
    /// The payload is not well-formed UTF-8.
    InvalidUtf8,
}

/// A payload with its length in front.
pub open spec fn framed(payload: Seq<u8>) -> Seq<u8> {
    spec_u64_to_le_bytes(payload.len() as u64) + payload
}

/// The length that the first bytes of the input announce.
pub open spec fn announced_len(input: Seq<u8>) -> int {
    spec_u64_from_le_bytes(input.subrange(0, HEADER_LEN as int)) as int
}

/// The text of the message at the start of the input.
pub open spec fn unframed(input: Seq<u8>) -> Result<Seq<char>, ReadError> {
    if input.len() < HEADER_LEN || input.len() - HEADER_LEN < announced_len(input) {
        Err(ReadError::UnexpectedEof)
    } else {
        let payload = input.subrange(HEADER_LEN as int, HEADER_LEN + announced_len(input));
        if valid_utf8(payload) {
            Ok(decode_utf8(payload))
        } else {
            Err(ReadError::InvalidUtf8)
        }
    }
}

/// The text of a result, with the error as it is.
pub open spec fn text_of(r: Result<String, ReadError>) -> Result<Seq<char>, ReadError> {
    match r {
        Ok(s) => Ok(s@),
        Err(e) => Err(e),
    }
}

/// The length of the payload that a header announces, if the header is
/// complete and the length can be counted on this machine.
pub fn payload_len(header: &[u8]) -> (len: Option<usize>)
    ensures
        len == if header@.len() >= HEADER_LEN && announced_len(header@) <= usize::MAX {
            Some(announced_len(header@) as usize)
        } else {
            None
        },
{
    if header.len() < HEADER_LEN {
        return None;
    }
    let len = u64_from_le_bytes(slice_subrange(header, 0, HEADER_LEN));
    if len > usize::MAX as u64 {
        None
    } else {
        Some(len as usize)
    }
}

/// Writes a message: appends to `out` the length of `buf` and then `buf`.
pub fn write(out: &mut Vec<u8>, buf: &[u8])
    ensures
        final(out)@ == old(out)@ + framed(buf@),
{
    let mut header = u64_to_le_bytes(buf.len() as u64);
    out.append(&mut header);
    out.extend_from_slice(buf);
    proof {
        assert(out@ =~= old(out)@ + framed(buf@));
    }
}

/// Reads the message at the start of `input` and gives its text.  What
/// follows the message is not looked at.
pub fn read(input: &[u8]) -> (r: Result<String, ReadError>)
    ensures
        text_of(r) == unframed(input@),
{
    if input.len() < HEADER_LEN {
        return Err(ReadError::UnexpectedEof);
    }
    let len = u64_from_le_bytes(slice_subrange(input, 0, HEADER_LEN));
    if ((input.len() - HEADER_LEN) as u64) < len {
        return Err(ReadError::UnexpectedEof);
    }
    let payload = slice_to_vec(slice_subrange(input, HEADER_LEN, HEADER_LEN + len as usize));
    match String::from_utf8(payload) {
        Ok(s) => Ok(s),
        Err(_) => Err(ReadError::InvalidUtf8),
    }
}

/// What was written is what is read: the message that frames the encoding
/// of a text reads as that text, whatever follows it.
pub proof fn lemma_read_after_write(text: Seq<char>, rest: Seq<u8>)
    requires
        encode_utf8(text).len() <= u64::MAX,
    ensures
        unframed(framed(encode_utf8(text)) + rest) == Ok::<Seq<char>, ReadError>(text),
{
    let payload = encode_utf8(text);
    let input = framed(payload) + rest;
    lemma_auto_spec_u64_to_from_le_bytes();
    assert(input.subrange(0, HEADER_LEN as int) =~= spec_u64_to_le_bytes(payload.len() as u64));
    assert(announced_len(input) == payload.len());
    assert(input.subrange(HEADER_LEN as int, HEADER_LEN + announced_len(input)) =~= payload);
    vstd::utf8::encode_utf8_valid_utf8(text);
    vstd::utf8::encode_utf8_decode_utf8(text);
}

} // verus!
