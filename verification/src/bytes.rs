//! Little-endian integers in byte buffers, and the hash of a buffer.

use byteorder::{ByteOrder, LittleEndian, WriteBytesExt};
use fasthash::city::Hasher128;
use fasthash::sea::Hasher64;
use fasthash::FastHasher;
use std::hash::{Hash, Hasher};
use vstd::bytes::{
    spec_u32_from_le_bytes, spec_u32_to_le_bytes, spec_u64_from_le_bytes, spec_u64_to_le_bytes,
};
use vstd::prelude::*;

verus! {

/// Reads a `u32` with `byteorder::LittleEndian::read_u32`: the number whose
/// little-endian bytes are the first four of `buf`. The call panics on a
/// shorter buffer.
#[verifier::external_body]
pub(crate) fn read_u32(buf: &[u8]) -> (n: u32)
    requires
        buf@.len() >= 4,
    ensures
        n == spec_u32_from_le_bytes(buf@.subrange(0, 4)),
{
    LittleEndian::read_u32(buf)
}

/// Reads a `u64` with `byteorder::LittleEndian::read_u64`: the number whose
/// little-endian bytes are the first eight of `buf`. The call panics on a
/// shorter buffer.
#[verifier::external_body]
pub(crate) fn read_u64(buf: &[u8]) -> (n: u64)
    requires
        buf@.len() >= 8,
    ensures
        n == spec_u64_from_le_bytes(buf@.subrange(0, 8)),
{
    LittleEndian::read_u64(buf)
}

/// Appends a `u32` with `byteorder::WriteBytesExt::write_u32`: its four
/// little-endian bytes. Writing to a vector does not fail.
#[verifier::external_body]
pub(crate) fn write_u32(out: &mut Vec<u8>, n: u32)
    ensures
        final(out)@ == old(out)@ + spec_u32_to_le_bytes(n),
{
    let _ = out.write_u32::<LittleEndian>(n);
}

/// Appends a `u64` with `byteorder::WriteBytesExt::write_u64`: its eight
/// little-endian bytes. Writing to a vector does not fail.
#[verifier::external_body]
pub(crate) fn write_u64(out: &mut Vec<u8>, n: u64)
    ensures
        final(out)@ == old(out)@ + spec_u64_to_le_bytes(n),
{
    let _ = out.write_u64::<LittleEndian>(n);
}

/// What `fasthash::sea::Hasher64` makes of a buffer that is fed to it
/// through the buffer's `Hash` impl: the SeaHash of its length and its
/// bytes.
pub uninterp spec fn data_hash(data: Seq<u8>) -> u64;

/// Hashes a buffer with `fasthash::sea::Hasher64`, fed through the buffer's
/// `Hash` impl, which writes the length and then the bytes. The hasher
/// starts from fixed seeds, takes the length as a 64-bit number and reads
/// the bytes in little-endian order: the result is a function of the
/// bytes alone.
#[verifier::external_body]
pub(crate) fn hash_data(data: &[u8]) -> (hash: u64)
    ensures
        hash == data_hash(data@),
{
    let mut hasher = Hasher64::new();
    data.hash(&mut hasher);
    hasher.finish()
}

/// What `image::load_from_memory` and then `DynamicImage::to_rgba8` make of
/// the bytes of an encoded image: its width, its height and its pixels as
/// RGBA8, row by row; or `None` where the bytes are no image that the
/// decoder reads.
pub uninterp spec fn decoded_rgba8(bytes: Seq<u8>) -> Option<(u32, u32, Seq<u8>)>;

/// Decodes an image with `image::load_from_memory` and converts it with
/// `DynamicImage::to_rgba8`. The result is a function of the bytes alone.
#[verifier::external_body]
pub(crate) fn decode_rgba8(bytes: &[u8]) -> (r: Option<(u32, u32, Vec<u8>)>)
    ensures
        match r {
            Some((width, height, data)) => decoded_rgba8(bytes@) == Some((width, height, data@)),
            None => decoded_rgba8(bytes@) is None,
        },
{
    match image::load_from_memory(bytes) {
        Ok(decoded) => {
            let pixels = decoded.to_rgba8();
            Some((pixels.width(), pixels.height(), pixels.into_raw()))
        },
        Err(_) => None,
    }
}

/// What `fasthash::city::Hasher128` makes of a string that is fed to it
/// through the string's `Hash` impl: the lower 64 bits of the CityHash of
/// its bytes and a closing byte.
pub uninterp spec fn name_hash(name: Seq<char>) -> u64;

/// Hashes a string with `fasthash::city::Hasher128`, fed through the
/// string's `Hash` impl, which writes the bytes of the string and one byte
/// more. The result is a function of the characters alone.
#[verifier::external_body]
pub(crate) fn hash_name(name: &str) -> (hash: u64)
    ensures
        hash == name_hash(name@),
{
    let mut hasher = Hasher128::new();
    name.hash(&mut hasher);
    hasher.finish()
}

} // verus!
