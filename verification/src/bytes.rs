//! Bytes that other programs write, read as text.

use vstd::prelude::*;
use vstd::utf8::{decode_utf8, encode_utf8, valid_utf8};

verus! {

/// The text that `String::from_utf8_lossy` reads from bytes.
pub uninterp spec fn lossy_text(bytes: Seq<u8>) -> Seq<char>;

/// `String::from_utf8_lossy` reads bytes as UTF-8: bytes that are valid give the text that they
/// encode, and of others each invalid sequence is replaced. Which replacements are made is left to
/// the name.
#[verifier::external_body]
fn lossy(bytes: &Vec<u8>) -> (r: String)
    ensures
        r@ == lossy_text(bytes@),
        valid_utf8(bytes@) ==> r@ == decode_utf8(bytes@),
{
    String::from_utf8_lossy(bytes).into_owned()
}

/// The text that bytes show: what they encode where they are valid UTF-8, else a text with
/// replacements.
pub open spec fn shown_text(bytes: Seq<u8>) -> Seq<char> {
    if valid_utf8(bytes) {
        decode_utf8(bytes)
    } else {
        lossy_text(bytes)
    }
}

/// The text that bytes show.
pub fn show(bytes: &Vec<u8>) -> (r: String)
    ensures
        r@ == shown_text(bytes@),
{
    lossy(bytes)
}

/// `String::from_utf8` gives the text that bytes encode where they are valid UTF-8, and an error
/// where they are not.
#[verifier::external_body]
pub(crate) fn decode(bytes: Vec<u8>) -> (r: Option<String>)
    ensures
        match r {
            Some(s) => valid_utf8(bytes@) && s@ == decode_utf8(bytes@),
            None => !valid_utf8(bytes@),
        },
{
    String::from_utf8(bytes).ok()
}

/// Appends the bytes of a text.
pub fn push_text(bytes: &mut Vec<u8>, s: &str)
    ensures
        final(bytes)@ == old(bytes)@ + encode_utf8(s@),
{
    let more = s.as_bytes();
    let ghost before = bytes@;
    let mut i: usize = 0;
    assert(before + more@.take(0) =~= before);
    while i < more.len()
        invariant
            i <= more@.len(),
            bytes@ == before + more@.take(i as int),
        decreases more@.len() - i,
    {
        bytes.push(more[i]);
        assert(before + more@.take(i + 1) =~= (before + more@.take(i as int)).push(
            more@[i as int],
        ));
        i = i + 1;
    }
    assert(more@.take(i as int) =~= more@);
}

/// Bytes that encode a text show it.
pub proof fn law_encoded_text_is_shown(s: Seq<char>)
    ensures
        shown_text(encode_utf8(s)) == s,
{
    broadcast use {vstd::utf8::encode_utf8_valid_utf8, vstd::utf8::encode_utf8_decode_utf8};

}

} // verus!
