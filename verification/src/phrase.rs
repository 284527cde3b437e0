use vstd::prelude::*;
use vstd::utf8::decode_utf8;
use vstd::utf8::valid_utf8;
use crate::error::Error;

verus! {

/// The byte sequence that the mnemonic encoder writes for the given
/// source bytes: words from a fixed dictionary joined by a fixed format.
pub uninterp spec fn mnemonic_of(b: Seq<u8>) -> Seq<u8>;

/// Relies on mnemonic::encode with its default format: the bytes written
/// to the destination are a function of the source bytes alone, drawn
/// from a fixed word table and a constant separator format; at least one
/// word is written for a non-empty source. Its only failures propagate
/// from the destination writer, and writes into a Vec cannot fail, so
/// encoding into a fresh buffer always succeeds.
#[verifier::external_body]
fn encode_mnemonic(b: &Vec<u8>) -> (r: Vec<u8>)
    ensures
        r@ == mnemonic_of(b@),
        b@.len() > 0 ==> r@.len() > 0,
{
    let mut out: Vec<u8> = Vec::new();
    mnemonic::encode(b.as_slice(), &mut out).unwrap();
    out
}

/// Relies on String::from_utf8: it succeeds exactly on valid UTF-8 and
/// returns the string whose characters decode those bytes.
#[verifier::external_body]
fn utf8_string(v: Vec<u8>) -> (r: Option<String>)
    ensures
        r is Some <==> valid_utf8(v@),
        r matches Some(s) ==> s@ == decode_utf8(v@),
{
    String::from_utf8(v).ok()
}

/// Render a byte buffer as a mnemonic phrase: encode it through the
/// word-based scheme, then check that the phrase is valid UTF-8. The one
/// failure left is encoder output that is not UTF-8, a breach of the
/// encoder's contract.
pub fn mnemonic_phrase(bytes: &Vec<u8>) -> (r: Result<String, Error>)
    ensures
        r is Ok <==> valid_utf8(mnemonic_of(bytes@)),
        r matches Ok(p) ==> p@ == decode_utf8(mnemonic_of(bytes@)),
        bytes@.len() > 0 ==> (r matches Ok(p) ==> p@.len() > 0),
        r matches Err(e) ==> e is Utf8,
{
    let encoded = encode_mnemonic(bytes);
    match utf8_string(encoded) {
        Some(p) => {
            proof {
                if bytes@.len() > 0 {
                    assert(decode_utf8(mnemonic_of(bytes@)).len() > 0);
                }
            }
            Ok(p)
        },
        None => Err(Error::Utf8),
    }
}

} // verus!
