use vstd::prelude::*;
use vstd::utf8::{decode_utf8, valid_utf8};

verus! {

/// Decodes `bytes` with `core::str::from_utf8` and copies the text. Trusted:
/// the call succeeds exactly on valid UTF-8, and the text is the decoding of
/// the bytes.
#[verifier::external_body]
pub(crate) fn decode_text(bytes: &[u8]) -> (text: Option<String>)
    ensures
        text is Some <==> valid_utf8(bytes@),
        text is Some ==> text->Some_0@ == decode_utf8(bytes@),
{
    match core::str::from_utf8(bytes) {
        Ok(s) => Some(String::from(s)),
        Err(_) => None,
    }
}


/// Every character has a 16-bit code of its own and none is the terminator.
pub open spec fn is_ucs2_text(chars: Seq<char>) -> bool {
    forall|i: int| 0 <= i < chars.len() ==> 0 < #[trigger] (chars[i] as u32) <= 0xffff
}

/// Converts `text` to 16-bit characters with `uefi::CStr16::from_str_with_buf`,
/// which writes them and a terminator to the front of `buf`. Trusted: the
/// call succeeds exactly where the text has no zero character, none beyond
/// the 16-bit range, and fits the buffer with its terminator; it then leaves
/// the rest of the buffer alone. The buffer keeps its length in any case.
#[verifier::external_body]
pub(crate) fn ucs2_into(text: &str, buf: &mut Vec<u16>) -> (ok: bool)
    ensures
        final(buf)@.len() == old(buf)@.len(),
        ok <==> is_ucs2_text(text@) && text@.len() < old(buf)@.len(),
        ok ==> forall|i: int|
            0 <= i < final(buf)@.len() ==> #[trigger] final(buf)@[i] == if i < text@.len() {
                text@[i] as u16
            } else if i == text@.len() {
                0u16
            } else {
                old(buf)@[i]
            },
{
    uefi::CStr16::from_str_with_buf(text, buf.as_mut_slice()).is_ok()
}

/// A text has at least as many bytes as characters.
pub proof fn lemma_encoding_length(chars: Seq<char>)
    ensures
        vstd::utf8::encode_utf8(chars).len() >= chars.len(),
    decreases chars.len(),
{
    if chars.len() > 0 {
        lemma_encoding_length(chars.drop_first());
    }
}

} // verus!
