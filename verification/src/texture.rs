//! Textures as they are stored: size, representation, the hash of the data,
//! and the data.

use vstd::bytes::{
    lemma_auto_spec_u32_to_from_le_bytes, lemma_auto_spec_u64_to_from_le_bytes,
    spec_u32_from_le_bytes, spec_u32_to_le_bytes, spec_u64_from_le_bytes, spec_u64_to_le_bytes,
};
use vstd::prelude::*;
use vstd::slice::{slice_subrange, slice_to_vec};
use vstd::std_specs::cmp::PartialEqSpecImpl;
use crate::bytes::{
    data_hash, decode_rgba8, decoded_rgba8, hash_data, read_u32, read_u64, write_u32, write_u64,
};
use crate::error::{FormatError, ResourceError};

verus! {

/// How the pixels of a texture are laid out.
#[derive(Debug, Clone, Copy, PartialEq, Eq, Hash, Structural)]
pub enum TextureRepr {
    /// Four bytes per pixel: red, green, blue, alpha.
    RGBA8,
}

impl TextureRepr {
    /// The bytes that one pixel takes.
    pub open spec fn spec_bytes_per_pixel(&self) -> usize {
        match self {
            TextureRepr::RGBA8 => 4,
        }
    }

    /// The byte that stands for the representation in a stored texture.
    pub open spec fn spec_tag(&self) -> u8 {
        match self {
            TextureRepr::RGBA8 => 0,
        }
    }

    /// The representation that a byte stands for.
    pub open spec fn of_tag(tag: u8) -> Option<TextureRepr> {
        if tag == 0 {
            Some(TextureRepr::RGBA8)
        } else {
            None
        }
    }

    /// The bytes that one pixel takes.
    #[verifier::when_used_as_spec(spec_bytes_per_pixel)]
    pub fn bytes_per_pixel(&self) -> (bytes: usize)
        ensures
            bytes == self.spec_bytes_per_pixel(),
    {
        match self {
            TextureRepr::RGBA8 => 4,
        }
    }

    /// The byte that stands for the representation in a stored texture.
    #[verifier::when_used_as_spec(spec_tag)]
    pub fn tag(&self) -> (tag: u8)
        ensures
            tag == self.spec_tag(),
    {
        match self {
            TextureRepr::RGBA8 => 0,
        }
    }

    /// Reads a representation from its tag.
    pub fn try_from(tag: u8) -> (r: Result<TextureRepr, FormatError>)
        ensures
            match r {
                Ok(repr) => Self::of_tag(tag) == Some(repr),
                Err(e) => Self::of_tag(tag) is None && e == FormatError::InvalidTextureFormat(tag),
            },
    {
        if tag == 0 {
            Ok(TextureRepr::RGBA8)
        } else {
            Err(FormatError::InvalidTextureFormat(tag))
        }
    }

    /// The name of the representation.
    pub fn name(&self) -> (name: &'static str)
        ensures
            name@ == "RGBA8"@,
    {
        match self {
            TextureRepr::RGBA8 => "RGBA8",
        }
    }
}

/// A texture held in memory.
#[derive(Debug)]
pub struct TextureResource {
    /// Width and height in pixels.
    pub size: (u32, u32),
    /// The hash of `data`.
    pub hash: u64,
    pub repr: TextureRepr,
    /// The pixels, row by row.
    pub data: Vec<u8>,
}

/// The mathematical content of a [`TextureResource`].
pub struct TextureView {
    pub size: (u32, u32),
    pub hash: u64,
    pub repr: TextureRepr,
    pub data: Seq<u8>,
}

/// The bytes that the pixels of a texture take.
pub open spec fn pixel_bytes(size: (u32, u32), repr: TextureRepr) -> nat {
    (size.0 * size.1 * repr.spec_bytes_per_pixel()) as nat
}

/// The bytes in front of the pixels of a stored texture: width, height,
/// hash and the tag of the representation.
pub const HEADER_BYTES: usize = 17;

impl TextureView {
    /// The data holds exactly the pixels of the size.
    pub open spec fn well_formed(self) -> bool {
        self.data.len() == pixel_bytes(self.size, self.repr)
    }

    /// The texture as it is stored: width and height as little-endian
    /// `u32`, the hash as little-endian `u64`, the tag of the
    /// representation, and the data.
    pub open spec fn encoding(self) -> Seq<u8> {
        spec_u32_to_le_bytes(self.size.0) + spec_u32_to_le_bytes(self.size.1)
            + spec_u64_to_le_bytes(self.hash) + seq![self.repr.spec_tag()] + self.data
    }
}

/// Size, hash and representation of the texture whose header stands at the
/// start of `source`.
pub open spec fn decode_header(source: Seq<u8>) -> Result<
    ((u32, u32), u64, TextureRepr),
    ResourceError,
> {
    if source.len() < HEADER_BYTES {
        Err(ResourceError::UnexpectedEof)
    } else {
        match TextureRepr::of_tag(source[16]) {
            None => Err(ResourceError::Format(FormatError::InvalidTextureFormat(source[16]))),
            Some(repr) => Ok(
                (
                    (
                        spec_u32_from_le_bytes(source.subrange(0, 4)),
                        spec_u32_from_le_bytes(source.subrange(4, 8)),
                    ),
                    spec_u64_from_le_bytes(source.subrange(8, 16)),
                    repr,
                ),
            ),
        }
    }
}

/// The texture at the start of `source` and the bytes that it takes. The
/// hash is read and not checked.
pub open spec fn decode(source: Seq<u8>) -> Result<(TextureView, nat), ResourceError> {
    match decode_header(source) {
        Err(e) => Err(e),
        Ok((size, hash, repr)) => {
            let end = HEADER_BYTES + pixel_bytes(size, repr);
            if source.len() < end {
                Err(ResourceError::UnexpectedEof)
            } else {
                Ok(
                    (
                        TextureView {
                            size,
                            hash,
                            repr,
                            data: source.subrange(HEADER_BYTES as int, end),
                        },
                        end as nat,
                    ),
                )
            }
        },
    }
}

/// The texture at the start of `source` and the bytes that it takes, if
/// its data has the hash that is stored with it.
pub open spec fn decode_checked(source: Seq<u8>) -> Result<(TextureView, nat), ResourceError> {
    match decode(source) {
        Err(e) => Err(e),
        Ok((texture, taken)) => if texture.hash == data_hash(texture.data) {
            Ok((texture, taken))
        } else {
            Err(ResourceError::InvalidHash)
        },
    }
}

/// A stored texture is read back as it was, whatever follows it.
pub proof fn lemma_decode_encoding(texture: TextureView, rest: Seq<u8>)
    requires
        texture.well_formed(),
    ensures
        decode(texture.encoding() + rest) == Ok::<(TextureView, nat), ResourceError>(
            (texture, texture.encoding().len()),
        ),
{
    lemma_auto_spec_u32_to_from_le_bytes();
    lemma_auto_spec_u64_to_from_le_bytes();
    let source = texture.encoding() + rest;
    let width = spec_u32_to_le_bytes(texture.size.0);
    let height = spec_u32_to_le_bytes(texture.size.1);
    let hash = spec_u64_to_le_bytes(texture.hash);
    assert(source.subrange(0, 4) =~= width);
    assert(source.subrange(4, 8) =~= height);
    assert(source.subrange(8, 16) =~= hash);
    assert(source[16] == texture.repr.spec_tag());
    let end = HEADER_BYTES + pixel_bytes(texture.size, texture.repr);
    assert(texture.encoding().len() == end);
    assert(source.subrange(HEADER_BYTES as int, end) =~= texture.data);
}

/// A texture that was stored with the hash of its data is loaded as it
/// was, whatever follows it.
pub proof fn lemma_load_encoding(texture: TextureView, rest: Seq<u8>)
    requires
        texture.well_formed(),
        texture.hash == data_hash(texture.data),
    ensures
        decode_checked(texture.encoding() + rest) == Ok::<(TextureView, nat), ResourceError>(
            (texture, texture.encoding().len()),
        ),
{
    lemma_decode_encoding(texture, rest);
}

impl View for TextureResource {
    type V = TextureView;

    open spec fn view(&self) -> TextureView {
        TextureView { size: self.size, hash: self.hash, repr: self.repr, data: self.data@ }
    }
}

impl Clone for TextureResource {
    fn clone(&self) -> (copy: Self)
        ensures
            copy@ == self@,
    {
        let data = self.data.clone();
        assert(data@ =~= self.data@);
        TextureResource {
            size: (self.size.0, self.size.1),
            hash: self.hash,
            repr: self.repr,
            data,
        }
    }
}

impl PartialEq for TextureResource {
    /// Two textures are taken for the same where size and hash agree; the
    /// data is not compared.
    fn eq(&self, other: &Self) -> (r: bool) {
        self.size.0 == other.size.0 && self.size.1 == other.size.1 && self.hash == other.hash
    }
}

impl PartialEqSpecImpl for TextureResource {
    open spec fn obeys_eq_spec() -> bool {
        true
    }

    open spec fn eq_spec(&self, other: &Self) -> bool {
        self.size.0 == other.size.0 && self.size.1 == other.size.1 && self.hash == other.hash
    }
}

impl Eq for TextureResource {

}

/// The bytes that the pixels of a texture take.
fn byte_count(size: (u32, u32), repr: TextureRepr) -> (bytes: u128)
    ensures
        bytes == pixel_bytes(size, repr),
{
    assert(size.0 * size.1 <= 0xffff_ffff * 0xffff_ffff) by (nonlinear_arith)
        requires
            0 <= size.0 <= 0xffff_ffff,
            0 <= size.1 <= 0xffff_ffff,
    ;
    let pixels: u128 = size.0 as u128 * size.1 as u128;
    let each: u128 = repr.bytes_per_pixel() as u128;
    assert(pixels * each <= 0xffff_ffff * 0xffff_ffff * 4) by (nonlinear_arith)
        requires
            0 <= pixels <= 0xffff_ffff * 0xffff_ffff,
            0 <= each <= 4,
    ;
    pixels * each
}

impl TextureResource {
    /// Whether the data holds exactly the pixels of the size.
    pub fn is_well_formed(&self) -> (r: bool)
        ensures
            r == self@.well_formed(),
    {
        self.data.len() as u128 == byte_count(self.size, self.repr)
    }

    /// An RGBA8 texture of the given size, data and hash, if the data holds
    /// exactly the pixels of the size.
    pub fn rgba8(size: (u32, u32), data: Vec<u8>, hash: u64) -> (r: Option<Self>)
        ensures
            match r {
                Some(texture) => texture@ == (TextureView {
                    size,
                    hash,
                    repr: TextureRepr::RGBA8,
                    data: data@,
                }) && texture@.well_formed(),
                None => data@.len() != pixel_bytes(size, TextureRepr::RGBA8),
            },
    {
        let texture = TextureResource { size, hash, repr: TextureRepr::RGBA8, data };
        if texture.is_well_formed() {
            Some(texture)
        } else {
            None
        }
    }

    /// Decodes an encoded image into an RGBA8 texture with the hash of its
    /// pixels. There is no texture where the bytes are no image, or where
    /// the decoder gives other than four bytes for each pixel.
    pub fn rgba8_from_memory(bytes: &[u8]) -> (r: Option<TextureResource>)
        ensures
            match r {
                Some(texture) => {
                    &&& decoded_rgba8(bytes@) == Some(
                        (texture@.size.0, texture@.size.1, texture@.data),
                    )
                    &&& texture@.repr == TextureRepr::RGBA8
                    &&& texture@.hash == data_hash(texture@.data)
                    &&& texture@.well_formed()
                },
                None => match decoded_rgba8(bytes@) {
                    Some((width, height, data)) => data.len() != pixel_bytes(
                        (width, height),
                        TextureRepr::RGBA8,
                    ),
                    None => true,
                },
            },
    {
        match decode_rgba8(bytes) {
            Some((width, height, data)) => {
                let hash = hash_data(data.as_slice());
                Self::rgba8((width, height), data, hash)
            },
            None => None,
        }
    }

    /// Appends the texture to `out` as it is stored.
    pub fn save(&self, out: &mut Vec<u8>)
        ensures
            final(out)@ == old(out)@ + self@.encoding(),
    {
        write_u32(out, self.size.0);
        write_u32(out, self.size.1);
        write_u64(out, self.hash);
        out.push(self.repr.tag());
        let ghost header = out@;
        out.extend_from_slice(self.data.as_slice());
        assert(out@ =~= header + self.data@);
        assert(out@ =~= old(out)@ + self@.encoding());
    }

    /// Reads the header at the start of `source`: size, hash and
    /// representation of the texture.
    pub fn decode_header(source: &[u8]) -> (r: Result<((u32, u32), u64, TextureRepr), ResourceError>)
        ensures
            r == decode_header(source@),
    {
        if source.len() < HEADER_BYTES {
            return Err(ResourceError::UnexpectedEof);
        }
        let width = read_u32(slice_subrange(source, 0, 4));
        let height = read_u32(slice_subrange(source, 4, 8));
        let hash = read_u64(slice_subrange(source, 8, 16));
        proof {
            assert(source@.subrange(0, 4).subrange(0, 4) =~= source@.subrange(0, 4));
            assert(source@.subrange(4, 8).subrange(0, 4) =~= source@.subrange(4, 8));
            assert(source@.subrange(8, 16).subrange(0, 8) =~= source@.subrange(8, 16));
        }
        match TextureRepr::try_from(source[16]) {
            Ok(repr) => Ok(((width, height), hash, repr)),
            Err(e) => Err(ResourceError::Format(e)),
        }
    }

    /// The bytes of data that follow the header at the start of `source`.
    pub fn data_len(source: &[u8]) -> (r: Result<u128, ResourceError>)
        ensures
            match r {
                Ok(bytes) => decode_header(source@) matches Ok((size, _, repr)) && bytes
                    == pixel_bytes(size, repr),
                Err(e) => decode_header(source@) == Err::<
                    ((u32, u32), u64, TextureRepr),
                    ResourceError,
                >(e),
            },
    {
        match Self::decode_header(source) {
            Ok((size, _, repr)) => Ok(byte_count(size, repr)),
            Err(e) => Err(e),
        }
    }

    /// Reads the texture at the start of `source`, and says how many bytes
    /// it takes. The hash is read and not checked.
    pub fn decode(source: &[u8]) -> (r: Result<(TextureResource, usize), ResourceError>)
        ensures
            match r {
                Ok((texture, taken)) => decode(source@) == Ok::<(TextureView, nat), ResourceError>(
                    (texture@, taken as nat),
                ),
                Err(e) => decode(source@) == Err::<(TextureView, nat), ResourceError>(e),
            },
    {
        let (size, hash, repr) = match Self::decode_header(source) {
            Ok(header) => header,
            Err(e) => {
                return Err(e);
            },
        };
        let bytes: u128 = byte_count(size, repr);
        if ((source.len() - HEADER_BYTES) as u128) < bytes {
            return Err(ResourceError::UnexpectedEof);
        }
        let end: usize = HEADER_BYTES + bytes as usize;
        let data = slice_to_vec(slice_subrange(source, HEADER_BYTES, end));
        Ok((TextureResource { size, hash, repr, data }, end))
    }

    /// Holds the texture to the hash of its data: the texture comes back
    /// where the stored hash is `data_hash`.
    pub fn verify(self, data_hash: u64) -> (r: Result<Self, ResourceError>)
        ensures
            match r {
                Ok(texture) => texture == self && self.hash == data_hash,
                Err(e) => e == ResourceError::InvalidHash && self.hash != data_hash,
            },
    {
        if self.hash == data_hash {
            Ok(self)
        } else {
            Err(ResourceError::InvalidHash)
        }
    }

    /// Reads the texture at the start of `source` and checks the hash of
    /// its data against the stored one.
    pub fn load(source: &[u8]) -> (r: Result<(TextureResource, usize), ResourceError>)
        ensures
            match r {
                Ok((texture, taken)) => decode_checked(source@) == Ok::<
                    (TextureView, nat),
                    ResourceError,
                >((texture@, taken as nat)),
                Err(e) => decode_checked(source@) == Err::<(TextureView, nat), ResourceError>(e),
            },
    {
        let (texture, taken) = match Self::decode(source) {
            Ok(read) => read,
            Err(e) => {
                return Err(e);
            },
        };
        let data_hash = hash_data(texture.data.as_slice());
        match texture.verify(data_hash) {
            Ok(texture) => Ok((texture, taken)),
            Err(e) => Err(e),
        }
    }
}

} // verus!
