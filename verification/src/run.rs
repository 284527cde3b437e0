use vstd::prelude::*;
use vstd::string::StringExecFns;
use vstd::utf8::decode_utf8;
use vstd::utf8::valid_utf8;
use crate::bech::bech32_ok;
use crate::bech::bech32_payload_of;
use crate::bech::decode_payload;
use crate::checksum::be_bytes32;
use crate::checksum::checksum_be_bytes;
use crate::checksum::compute_checksum;
use crate::checksum::crc32_of;
use crate::error::Error;
use crate::hex::checksum_hex;
use crate::hex::hex32;
use crate::phrase::mnemonic_of;
use crate::phrase::mnemonic_phrase;

verus! {

/// The one input source of a run: a file to read, the standard input
/// stream, or a bech32 string whose payload is the input. Exactly one
/// variant is active; the invalid joint state of a file path and a
/// bech32 string together is ruled out by construction.
#[derive(Debug)]
pub enum Source {
    /// Read the named file.
    File(String),
    /// Read the standard input stream to its end.
    Stdin,
    /// Decode the bech32 string and take its payload bytes.
    Bech32(String),
}

/// Pick the input source from the two optional command-line values.
/// Supplying both is a configuration error, rejected here before any
/// reading takes place.
pub fn resolve_source(file: Option<String>, bech32: Option<String>) -> (r: Result<Source, Error>)
    ensures
        r is Err <==> file is Some && bech32 is Some,
        r matches Err(e) ==> e is Conflict,
        file matches Some(f) ==> (bech32 is Some || (r matches Ok(s) && s matches Source::File(p)
            && p@ == f@)),
        bech32 matches Some(b) ==> (file is Some || (r matches Ok(s) && s matches Source::Bech32(
            p,
        ) && p@ == b@)),
        file is None && bech32 is None ==> (r matches Ok(s) && s is Stdin),
{
    match (file, bech32) {
        (Some(_), Some(_)) => Err(Error::Conflict),
        (Some(f), None) => Ok(Source::File(f)),
        (None, Some(b)) => Ok(Source::Bech32(b)),
        (None, None) => Ok(Source::Stdin),
    }
}

/// What one successful run prints: the checksum itself and the two
/// output lines rendered from it.
#[derive(Debug)]
pub struct Report {
    /// The CRC32 checksum of the resolved input bytes.
    pub checksum: u32,
    /// The line `CRC32 sum: ` followed by eight lowercase hex digits.
    pub checksum_line: String,
    /// The line `Mnemonic: ` followed by the mnemonic phrase.
    pub mnemonic_line: String,
}

/// The checksum line rendered from a checksum value.
pub open spec fn checksum_line_of(c: u32) -> Seq<char> {
    "CRC32 sum: "@ + hex32(c)
}

/// The mnemonic phrase rendered from a checksum value: the word-based
/// encoding of its four big-endian bytes, decoded as UTF-8.
pub open spec fn phrase_of(c: u32) -> Seq<char> {
    decode_utf8(mnemonic_of(be_bytes32(c)))
}

/// The mnemonic line rendered from a checksum value.
pub open spec fn mnemonic_line_of(c: u32) -> Seq<char> {
    "Mnemonic: "@ + phrase_of(c)
}

/// What a report owes to the input bytes it was computed from.
pub open spec fn report_matches(data: Seq<u8>, rep: Report) -> bool {
    &&& rep.checksum == crc32_of(data)
    &&& rep.checksum_line@ == checksum_line_of(crc32_of(data))
    &&& rep.mnemonic_line@ == mnemonic_line_of(crc32_of(data))
}

/// Whether a run on the given input bytes succeeds: the checksum and the
/// hex line never fail, so only encoder output that is not valid UTF-8,
/// a breach of the encoder's contract, can stop the run.
pub open spec fn run_ok(data: Seq<u8>) -> bool {
    valid_utf8(mnemonic_of(be_bytes32(crc32_of(data))))
}

/// Compute the checksum of the resolved input bytes and render both
/// output lines from it.
pub fn exec_bytes(data: &Vec<u8>) -> (r: Result<Report, Error>)
    ensures
        r is Ok <==> run_ok(data@),
        r matches Ok(rep) ==> report_matches(data@, rep),
        r matches Ok(rep) ==> phrase_of(crc32_of(data@)).len() > 0,
        data@.len() == 0 ==> (r matches Ok(rep) ==> rep.checksum == 0),
        r matches Err(e) ==> e is Utf8,
{
    let crc32 = compute_checksum(data);
    let hex = checksum_hex(crc32);
    let checksum_line = String::from_str("CRC32 sum: ").concat(hex.as_str());
    let be = checksum_be_bytes(crc32);
    let phrase = match mnemonic_phrase(&be) {
        Ok(p) => p,
        Err(e) => {
            return Err(e);
        },
    };
    let mnemonic_line = String::from_str("Mnemonic: ").concat(phrase.as_str());
    Ok(Report { checksum: crc32, checksum_line, mnemonic_line })
}

/// Decode a bech32 string and run on its payload bytes. Exactly the
/// well-formed strings whose payload renders cleanly succeed; a rejected
/// string is reported as a bech32 error, and nothing else is.
pub fn exec_bech32(s: &str) -> (r: Result<Report, Error>)
    ensures
        r is Ok <==> bech32_ok(s@) && run_ok(bech32_payload_of(s@)),
        r matches Ok(rep) ==> report_matches(bech32_payload_of(s@), rep),
        r matches Ok(rep) ==> phrase_of(crc32_of(bech32_payload_of(s@))).len() > 0,
        r matches Err(e) ==> ((e is Bech32 && !bech32_ok(s@)) || (e is Utf8 && bech32_ok(s@)
            && !run_ok(bech32_payload_of(s@)))),
{
    let payload = match decode_payload(s) {
        Ok(p) => p,
        Err(e) => {
            return Err(e);
        },
    };
    exec_bytes(&payload)
}

/// A run on a bech32 string reports exactly what a run on its decoded
/// payload bytes reports: the two input paths cannot disagree.
pub proof fn lemma_bech32_source_agrees(s: Seq<char>, p: Seq<u8>, from_string: Report, from_bytes: Report)
    requires
        p == bech32_payload_of(s),
        report_matches(bech32_payload_of(s), from_string),
        report_matches(p, from_bytes),
    ensures
        from_string.checksum == from_bytes.checksum,
        from_string.checksum_line@ == from_bytes.checksum_line@,
        from_string.mnemonic_line@ == from_bytes.mnemonic_line@,
{
}

/// When a bech32 string is well formed, a run on the string succeeds
/// exactly when a run on its payload bytes succeeds: neither input path
/// can fail while the other goes through.
pub proof fn lemma_bech32_success_agrees(s: Seq<char>, p: Seq<u8>)
    requires
        bech32_ok(s),
        p == bech32_payload_of(s),
    ensures
        (bech32_ok(s) && run_ok(bech32_payload_of(s))) <==> run_ok(p),
{
}

/// Determinism of the whole run: equal input bytes decide success alike,
/// and two successful reports over equal bytes agree in every field.
pub proof fn lemma_run_deterministic(a: Seq<u8>, b: Seq<u8>, ra: Report, rb: Report)
    requires
        a == b,
        report_matches(a, ra),
        report_matches(b, rb),
    ensures
        run_ok(a) == run_ok(b),
        ra.checksum == rb.checksum,
        ra.checksum_line@ == rb.checksum_line@,
        ra.mnemonic_line@ == rb.mnemonic_line@,
{
}

/// The mnemonic depends on the input only through its checksum: inputs
/// with equal checksums succeed alike and render the identical mnemonic
/// line.
pub proof fn lemma_phrase_through_checksum(d1: Seq<u8>, d2: Seq<u8>)
    requires
        crc32_of(d1) == crc32_of(d2),
    ensures
        run_ok(d1) == run_ok(d2),
        mnemonic_line_of(crc32_of(d1)) == mnemonic_line_of(crc32_of(d2)),
{
}

/// Distinct checksums render distinct phrases, granted that the word
/// encoder is injective on four-byte inputs; nothing here assumes that
/// of the outside encoder, so it stands as a hypothesis.
pub proof fn lemma_distinct_checksums_distinct_phrases(c: u32, d: u32)
    requires
        c != d,
        valid_utf8(mnemonic_of(be_bytes32(c))),
        valid_utf8(mnemonic_of(be_bytes32(d))),
        forall|a: Seq<u8>, b: Seq<u8>|
            a.len() == 4 && b.len() == 4 && #[trigger] mnemonic_of(a) == #[trigger] mnemonic_of(
                b,
            ) ==> a == b,
    ensures
        phrase_of(c) != phrase_of(d),
{
    if phrase_of(c) == phrase_of(d) {
        vstd::utf8::decode_utf8_encode_utf8(mnemonic_of(be_bytes32(c)));
        vstd::utf8::decode_utf8_encode_utf8(mnemonic_of(be_bytes32(d)));
        assert(mnemonic_of(be_bytes32(c)) == mnemonic_of(be_bytes32(d)));
        assert(be_bytes32(c) == be_bytes32(d));
        crate::checksum::lemma_be_bytes_injective(c, d);
    }
}

} // verus!
