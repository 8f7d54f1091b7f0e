//! Content identifiers computed before a lookup request is built: the
//! chunked digest of a file's bytes and its checksum. The byte source
//! is read outside; the chunk arithmetic and the hex rendering are
//! verified here.
use vstd::prelude::*;

use md4::Digest;

use crate::strutil::hex_digits;
use crate::strutil::u64_to_hex;
use crate::wire::hex_lower;
use crate::wire::hex_of;
use vstd::slice::slice_subrange;

verus! {

/// What the md4 digest of a byte string is.
pub uninterp spec fn md4_of(data: Seq<u8>) -> Seq<u8>;

/// Relies on md4::Md4 (a RustCrypto Digest): a 16-byte digest that is
/// a function of the input bytes alone.
#[verifier::external_body]
fn md4_digest(data: &[u8]) -> (r: Vec<u8>)
    ensures
        r@ == md4_of(data@),
        r@.len() == 16,
{
    let mut h = md4::Md4::new();
    h.update(data);
    h.finalize().to_vec()
}

/// What the 32-bit checksum of a byte string is, under the polynomial
/// the protocol names.
pub uninterp spec fn crc32_of(data: Seq<u8>) -> u32;

/// Relies on crc::Crc with the CRC_32_ISO_HDLC algorithm: the checksum
/// is a function of the input bytes alone.
#[verifier::external_body]
fn crc32_digest(data: &[u8]) -> (r: u32)
    ensures
        r == crc32_of(data@),
{
    let c = crc::Crc::<u32>::new(&crc::CRC_32_ISO_HDLC);
    c.checksum(data)
}

/// The chunk size of the content-identifier format.
pub const ED2K_CHUNK: usize = 9728000;

/// The digests of the consecutive chunks, concatenated: every chunk is
/// full-sized but the last, which holds whatever remains.
pub open spec fn ed2k_chunk_hashes(data: Seq<u8>) -> Seq<u8>
    decreases data.len(),
{
    if data.len() <= 9728000 {
        md4_of(data)
    } else {
        md4_of(data.take(9728000)) + ed2k_chunk_hashes(data.skip(9728000))
    }
}

/// The content identifier of a byte string: the digest of its one
/// chunk, or, when it spans several chunks, the digest of the
/// concatenated chunk digests.
pub open spec fn ed2k_digest(data: Seq<u8>) -> Seq<u8> {
    if data.len() <= 9728000 {
        md4_of(data)
    } else {
        md4_of(ed2k_chunk_hashes(data))
    }
}

/// Computes the content identifier of `data` in lowercase hex,
/// together with the byte count.
pub fn ed2k_hash_bytes(data: &Vec<u8>) -> (r: (String, usize))
    ensures
        r.0@ == hex_of(ed2k_digest(data@)),
        r.1 == data@.len(),
{
    let n = data.len();
    if n <= ED2K_CHUNK {
        let d = md4_digest(data.as_slice());
        (hex_lower(&d), n)
    } else {
        let mut hashes: Vec<u8> = Vec::new();
        let mut pos: usize = 0;
        proof {
            assert(data@.skip(0) =~= data@);
        }
        while n - pos > ED2K_CHUNK
            invariant
                pos <= n,
                n == data@.len(),
                ed2k_chunk_hashes(data@) == hashes@ + ed2k_chunk_hashes(data@.skip(pos as int)),
            decreases n - pos,
        {
            let chunk = slice_subrange(data.as_slice(), pos, pos + ED2K_CHUNK);
            let mut d = md4_digest(chunk);
            proof {
                assert(chunk@ =~= data@.skip(pos as int).take(9728000));
                assert(data@.skip(pos as int).skip(9728000) =~= data@.skip(pos + 9728000));
                assert((hashes@ + md4_of(data@.skip(pos as int).take(9728000)))
                    + ed2k_chunk_hashes(data@.skip(pos + 9728000)) =~= hashes@ + (md4_of(
                    data@.skip(pos as int).take(9728000),
                ) + ed2k_chunk_hashes(data@.skip(pos + 9728000))));
            }
            hashes.append(&mut d);
            pos = pos + ED2K_CHUNK;
        }
        let last = slice_subrange(data.as_slice(), pos, n);
        let mut d = md4_digest(last);
        proof {
            assert(last@ =~= data@.skip(pos as int));
        }
        hashes.append(&mut d);
        proof {
            assert(hashes@ =~= ed2k_chunk_hashes(data@));
        }
        let f = md4_digest(hashes.as_slice());
        (hex_lower(&f), n)
    }
}

/// Computes the checksum of `data` in lowercase hex, without leading
/// zeros.
pub fn crc32_hex_bytes(data: &Vec<u8>) -> (r: String)
    ensures
        r@ == hex_digits(crc32_of(data@) as nat),
{
    u64_to_hex(crc32_digest(data.as_slice()) as u64)
}

} // verus!
