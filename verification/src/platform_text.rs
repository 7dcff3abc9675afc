use vstd::prelude::*;
use vstd::utf8::{decode_utf8, valid_utf8};

verus! {

/// `String::from_utf8`, with its error dropped: the bytes' text when they are valid
/// UTF-8, and nothing otherwise.
#[verifier::external_body]
fn string_from_utf8(bytes: Vec<u8>) -> (r: Option<String>)
    ensures
        r is Some <==> valid_utf8(bytes@),
        r matches Some(s) ==> s@ == decode_utf8(bytes@),
{
    String::from_utf8(bytes).ok()
}

/// The bytes that the platform wrote into a buffer: the first `written` bytes, or the
/// whole buffer when `written` (read as an unsigned size) is not below its length.
pub open spec fn written_part(buf: Seq<u8>, written: i32) -> Seq<u8> {
    let n = written as usize;
    if n <= buf.len() { buf.subrange(0, n as int) } else { buf }
}

/// The text that the platform wrote into `buf`, reporting `written` bytes: those bytes
/// decoded as UTF-8, or nothing when they are not valid UTF-8.
pub fn decode_platform_text(buf: Vec<u8>, written: i32) -> (r: Option<String>)
    ensures
        r is Some <==> valid_utf8(written_part(buf@, written)),
        r matches Some(s) ==> s@ == decode_utf8(written_part(buf@, written)),
{
    let mut bytes = buf;
    bytes.truncate(written as usize);
    string_from_utf8(bytes)
}

} // verus!
