use vstd::prelude::*;
use crate::error::Error;

verus! {

/// The payload bytes that a valid bech32(m) string decodes to, with the
/// human-readable part and the checksum removed.
pub uninterp spec fn bech32_payload_of(s: Seq<char>) -> Seq<u8>;

/// Whether a string is a well-formed bech32(m) string: decoding it is
/// deterministic, so its success is a function of the string alone.
pub uninterp spec fn bech32_ok(s: Seq<char>) -> bool;

/// Relies on bech32::decode: it accepts a string under either the bech32
/// or the bech32m checksum, succeeds or fails deterministically on the
/// string alone, and on success returns the human-readable part (dropped
/// here) and the payload bytes.
#[verifier::external_body]
fn decode_bech32(s: &str) -> (r: Result<Vec<u8>, String>)
    ensures
        r is Ok <==> bech32_ok(s@),
        r matches Ok(p) ==> p@ == bech32_payload_of(s@),
{
    match bech32::decode(s) {
        Ok((_hrp, data)) => Ok(data),
        Err(e) => Err(format!("{}", e)),
    }
}

/// Decode a bech32(m) string into its payload bytes; exactly the
/// well-formed strings decode, and a rejected string is reported with the
/// decoder's reason.
pub fn decode_payload(s: &str) -> (r: Result<Vec<u8>, Error>)
    ensures
        r is Ok <==> bech32_ok(s@),
        r matches Ok(p) ==> p@ == bech32_payload_of(s@),
        r matches Err(e) ==> e is Bech32,
{
    match decode_bech32(s) {
        Ok(p) => Ok(p),
        Err(m) => Err(Error::Bech32(m)),
    }
}

} // verus!
