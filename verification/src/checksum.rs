use vstd::prelude::*;

verus! {

/// The IEEE CRC32 checksum of a byte sequence, as the conventional
/// zlib/gzip variant computes it.
pub uninterp spec fn crc32_of(b: Seq<u8>) -> u32;

/// Relies on crc32fast::hash: the standard IEEE CRC32 of the buffer,
/// a function of the bytes alone; the hasher starts from state zero, so
/// an empty buffer hashes to zero.
#[verifier::external_body]
fn crc32_hash(data: &Vec<u8>) -> (r: u32)
    ensures
        r == crc32_of(data@),
        data@.len() == 0 ==> r == 0,
{
    crc32fast::hash(data.as_slice())
}

/// Compute the CRC32 checksum of the resolved input buffer.
pub fn compute_checksum(data: &Vec<u8>) -> (r: u32)
    ensures
        r == crc32_of(data@),
        data@.len() == 0 ==> r == 0,
{
    crc32_hash(data)
}

/// The checksum is a function of the byte sequence alone: equal inputs
/// always yield equal checksums.
pub proof fn lemma_checksum_deterministic(a: Seq<u8>, b: Seq<u8>)
    requires
        a == b,
    ensures
        crc32_of(a) == crc32_of(b),
{
}

/// Big-endian rendering of a 32-bit checksum as four bytes,
/// most significant byte first.
pub open spec fn be_bytes32(x: u32) -> Seq<u8> {
    seq![
        ((x >> 24) & 0xff) as u8,
        ((x >> 16) & 0xff) as u8,
        ((x >> 8) & 0xff) as u8,
        (x & 0xff) as u8,
    ]
}

/// Split a checksum into its four big-endian bytes.
pub fn checksum_be_bytes(x: u32) -> (r: Vec<u8>)
    ensures
        r@ == be_bytes32(x),
{
    let mut out: Vec<u8> = Vec::new();
    proof {
        assert((x >> 24) & 0xff < 256 && (x >> 16) & 0xff < 256 && (x >> 8) & 0xff < 256 && x
            & 0xff < 256) by (bit_vector);
    }
    out.push(((x >> 24) & 0xff) as u8);
    out.push(((x >> 16) & 0xff) as u8);
    out.push(((x >> 8) & 0xff) as u8);
    out.push((x & 0xff) as u8);
    proof {
        assert(out@ =~= be_bytes32(x));
    }
    out
}

/// Distinct checksums have distinct big-endian renderings: the four-byte
/// form loses no information.
pub proof fn lemma_be_bytes_injective(x: u32, y: u32)
    requires
        be_bytes32(x) == be_bytes32(y),
    ensures
        x == y,
{
    assert(be_bytes32(x)[0] == be_bytes32(y)[0]);
    assert(be_bytes32(x)[1] == be_bytes32(y)[1]);
    assert(be_bytes32(x)[2] == be_bytes32(y)[2]);
    assert(be_bytes32(x)[3] == be_bytes32(y)[3]);
    assert((((x >> 24) & 0xff) as u8 == ((y >> 24) & 0xff) as u8 && ((x >> 16) & 0xff) as u8 == ((y
        >> 16) & 0xff) as u8 && ((x >> 8) & 0xff) as u8 == ((y >> 8) & 0xff) as u8 && (x
        & 0xff) as u8 == (y & 0xff) as u8) ==> x == y) by (bit_vector);
}

} // verus!
