//! Comparing text that arrives as bytes, without copying it.

use vstd::prelude::*;
use vstd::string::*;
use vstd::utf8::*;

verus! {

/// The text that `bytes` spell, if they are well-formed UTF-8.
pub open spec fn text_of(bytes: Seq<u8>) -> Option<Seq<char>> {
    if valid_utf8(bytes) {
        Some(decode_utf8(bytes))
    } else {
        None
    }
}

/// Text is told apart by its encoding: two texts are equal exactly when
/// their UTF-8 encodings are.
pub proof fn lemma_encoding_decides_text(a: Seq<char>, b: Seq<char>)
    ensures
        (encode_utf8(a) == encode_utf8(b)) == (a == b),
{
    encode_utf8_decode_utf8(a);
    encode_utf8_decode_utf8(b);
}

/// Bytes spell `text` exactly when they are its UTF-8 encoding.
pub proof fn lemma_text_of_encoding(bytes: Seq<u8>, text: Seq<char>)
    ensures
        (text_of(bytes) == Some(text)) == (bytes == encode_utf8(text)),
{
    if bytes == encode_utf8(text) {
        encode_utf8_valid_utf8(text);
        encode_utf8_decode_utf8(text);
    }
    if valid_utf8(bytes) {
        decode_utf8_encode_utf8(bytes);
    }
}

/// Whether two byte strings hold the same bytes.
pub fn bytes_eq(a: &[u8], b: &[u8]) -> (same: bool)
    ensures
        same == (a@ == b@),
{
    if a.len() != b.len() {
        return false;
    }
    let mut i: usize = 0;
    while i < a.len()
        invariant
            a@.len() == b@.len(),
            0 <= i <= a@.len(),
            forall|j: int| 0 <= j < i ==> a@[j] == b@[j],
        decreases a@.len() - i,
    {
        if a[i] != b[i] {
            return false;
        }
        i += 1;
    }
    assert(a@ =~= b@);
    true
}

/// Whether two strings hold the same text.
pub fn str_eq(a: &str, b: &str) -> (same: bool)
    ensures
        same == (a@ == b@),
{
    proof {
        lemma_encoding_decides_text(a@, b@);
    }
    bytes_eq(a.as_bytes(), b.as_bytes())
}

/// Whether `bytes` are well-formed UTF-8 that spells `text`.
pub fn spells(bytes: &[u8], text: &str) -> (same: bool)
    ensures
        same == (text_of(bytes@) == Some(text@)),
{
    proof {
        lemma_text_of_encoding(bytes@, text@);
    }
    bytes_eq(bytes, text.as_bytes())
}

} // verus!
