//! The resources that a bank can hold, told apart by a tag byte.

use vstd::prelude::*;
use vstd::slice::slice_subrange;
use crate::bytes::{data_hash, hash_name, name_hash};
use crate::error::{FormatError, ResourceError};
use crate::texture::{
    decode, decode_checked, lemma_decode_encoding, lemma_load_encoding, TextureResource,
    TextureView,
};

verus! {

/// The kinds of resource.
#[derive(Debug, Clone, Copy, PartialEq, Eq, Hash, Structural)]
pub enum ResourceKind {
    Texture,
}

impl ResourceKind {
    /// The byte that stands for the kind in a stored resource.
    pub open spec fn spec_tag(self) -> u8 {
        match self {
            ResourceKind::Texture => 0,
        }
    }

    /// The kind that a byte stands for.
    pub open spec fn of_tag(tag: u8) -> Option<ResourceKind> {
        if tag == 0 {
            Some(ResourceKind::Texture)
        } else {
            None
        }
    }

    /// The byte that stands for the kind in a stored resource.
    #[verifier::when_used_as_spec(spec_tag)]
    pub fn tag(self) -> (tag: u8)
        ensures
            tag == self.spec_tag(),
    {
        match self {
            ResourceKind::Texture => 0,
        }
    }

    /// Reads a kind from its tag.
    pub fn try_from(tag: u8) -> (r: Result<ResourceKind, FormatError>)
        ensures
            match r {
                Ok(kind) => Self::of_tag(tag) == Some(kind),
                Err(e) => Self::of_tag(tag) is None && e == FormatError::InvalidResourceKind(tag),
            },
    {
        if tag == 0 {
            Ok(ResourceKind::Texture)
        } else {
            Err(FormatError::InvalidResourceKind(tag))
        }
    }
}

/// A resource of any kind.
#[derive(Debug)]
pub enum AnyResource {
    Texture(TextureResource),
}

/// The mathematical content of an [`AnyResource`].
pub enum AnyResourceView {
    Texture(TextureView),
}

impl AnyResourceView {
    /// The kind of the resource.
    pub open spec fn kind(self) -> ResourceKind {
        match self {
            AnyResourceView::Texture(_) => ResourceKind::Texture,
        }
    }

    /// Whether the resource is as it has to be to be stored and read back.
    pub open spec fn well_formed(self) -> bool {
        match self {
            AnyResourceView::Texture(texture) => texture.well_formed(),
        }
    }

    /// Whether the stored hash is the hash of the data.
    pub open spec fn hash_matches(self) -> bool {
        match self {
            AnyResourceView::Texture(texture) => texture.hash == data_hash(texture.data),
        }
    }

    /// The resource as it is stored: the tag of its kind, then the resource.
    pub open spec fn encoding(self) -> Seq<u8> {
        match self {
            AnyResourceView::Texture(texture) => seq![self.kind().spec_tag()] + texture.encoding(),
        }
    }
}

/// The resource at the start of `source` and the bytes that it takes.
/// Hashes are read and not checked.
pub open spec fn decode_any(source: Seq<u8>) -> Result<(AnyResourceView, nat), ResourceError> {
    if source.len() < 1 {
        Err(ResourceError::UnexpectedEof)
    } else {
        match ResourceKind::of_tag(source[0]) {
            None => Err(ResourceError::Format(FormatError::InvalidResourceKind(source[0]))),
            Some(ResourceKind::Texture) => match decode(source.skip(1)) {
                Ok((texture, taken)) => Ok((AnyResourceView::Texture(texture), taken + 1)),
                Err(e) => Err(e),
            },
        }
    }
}

/// The resource at the start of `source` and the bytes that it takes, if
/// its data has the hash that is stored with it.
pub open spec fn decode_any_checked(source: Seq<u8>) -> Result<
    (AnyResourceView, nat),
    ResourceError,
> {
    if source.len() < 1 {
        Err(ResourceError::UnexpectedEof)
    } else {
        match ResourceKind::of_tag(source[0]) {
            None => Err(ResourceError::Format(FormatError::InvalidResourceKind(source[0]))),
            Some(ResourceKind::Texture) => match decode_checked(source.skip(1)) {
                Ok((texture, taken)) => Ok((AnyResourceView::Texture(texture), taken + 1)),
                Err(e) => Err(e),
            },
        }
    }
}

/// A resource that was stored with the hash of its data is loaded as it
/// was, whatever follows it.
pub proof fn lemma_load_any_encoding(resource: AnyResourceView, rest: Seq<u8>)
    requires
        resource.well_formed(),
        resource.hash_matches(),
    ensures
        decode_any_checked(resource.encoding() + rest) == Ok::<
            (AnyResourceView, nat),
            ResourceError,
        >((resource, resource.encoding().len())),
{
    match resource {
        AnyResourceView::Texture(texture) => {
            let source = resource.encoding() + rest;
            lemma_load_encoding(texture, rest);
            assert(source.skip(1) =~= texture.encoding() + rest);
        },
    }
}

/// A stored resource is read back as it was, whatever follows it.
pub proof fn lemma_decode_any_encoding(resource: AnyResourceView, rest: Seq<u8>)
    requires
        resource.well_formed(),
    ensures
        decode_any(resource.encoding() + rest) == Ok::<(AnyResourceView, nat), ResourceError>(
            (resource, resource.encoding().len()),
        ),
{
    match resource {
        AnyResourceView::Texture(texture) => {
            let source = resource.encoding() + rest;
            lemma_decode_encoding(texture, rest);
            assert(source.skip(1) =~= texture.encoding() + rest);
        },
    }
}

impl View for AnyResource {
    type V = AnyResourceView;

    open spec fn view(&self) -> AnyResourceView {
        match self {
            AnyResource::Texture(texture) => AnyResourceView::Texture(texture@),
        }
    }
}

impl AnyResource {
    /// The kind of the resource.
    pub open spec fn spec_kind(&self) -> ResourceKind {
        match self {
            AnyResource::Texture(_) => ResourceKind::Texture,
        }
    }

    /// The kind of the resource.
    #[verifier::when_used_as_spec(spec_kind)]
    pub fn kind(&self) -> (kind: ResourceKind)
        ensures
            kind == self.spec_kind(),
    {
        match self {
            AnyResource::Texture(_) => ResourceKind::Texture,
        }
    }

    /// The byte that stands for the kind of the resource when it is stored.
    pub fn tag(&self) -> (tag: u8)
        ensures
            tag == self.spec_kind().spec_tag(),
    {
        self.kind().tag()
    }

    /// Appends the resource to `out` as it is stored.
    pub fn save(&self, out: &mut Vec<u8>)
        ensures
            final(out)@ == old(out)@ + self@.encoding(),
    {
        out.push(self.tag());
        match self {
            AnyResource::Texture(texture) => {
                texture.save(out);
            },
        }
        assert(out@ =~= old(out)@ + self@.encoding());
    }

    /// Reads the resource at the start of `source`, and says how many bytes
    /// it takes. Hashes are read and not checked.
    pub fn decode(source: &[u8]) -> (r: Result<(AnyResource, usize), ResourceError>)
        ensures
            match r {
                Ok((resource, taken)) => decode_any(source@) == Ok::<
                    (AnyResourceView, nat),
                    ResourceError,
                >((resource@, taken as nat)),
                Err(e) => decode_any(source@) == Err::<(AnyResourceView, nat), ResourceError>(e),
            },
    {
        if source.len() < 1 {
            return Err(ResourceError::UnexpectedEof);
        }
        let kind = match ResourceKind::try_from(source[0]) {
            Ok(kind) => kind,
            Err(e) => {
                return Err(ResourceError::Format(e));
            },
        };
        match kind {
            ResourceKind::Texture => {
                let rest = slice_subrange(source, 1, source.len());
                assert(rest@ =~= source@.skip(1));
                match TextureResource::decode(rest) {
                    Ok((texture, taken)) => Ok((AnyResource::Texture(texture), taken + 1)),
                    Err(e) => Err(e),
                }
            },
        }
    }

    /// Reads the resource at the start of `source` and checks the hash of
    /// its data against the stored one.
    pub fn load(source: &[u8]) -> (r: Result<(AnyResource, usize), ResourceError>)
        ensures
            match r {
                Ok((resource, taken)) => decode_any_checked(source@) == Ok::<
                    (AnyResourceView, nat),
                    ResourceError,
                >((resource@, taken as nat)),
                Err(e) => decode_any_checked(source@) == Err::<
                    (AnyResourceView, nat),
                    ResourceError,
                >(e),
            },
    {
        if source.len() < 1 {
            return Err(ResourceError::UnexpectedEof);
        }
        let kind = match ResourceKind::try_from(source[0]) {
            Ok(kind) => kind,
            Err(e) => {
                return Err(ResourceError::Format(e));
            },
        };
        match kind {
            ResourceKind::Texture => {
                let rest = slice_subrange(source, 1, source.len());
                assert(rest@ =~= source@.skip(1));
                match TextureResource::load(rest) {
                    Ok((texture, taken)) => Ok((AnyResource::Texture(texture), taken + 1)),
                    Err(e) => Err(e),
                }
            },
        }
    }

    /// Wraps a texture.
    pub fn from(t: TextureResource) -> (resource: Self)
        ensures
            resource == AnyResource::Texture(t),
    {
        AnyResource::Texture(t)
    }
}

/// The name of a resource in a bank: the hash of its path.
#[derive(Debug, Clone, Copy, PartialEq, Eq, Hash, Structural)]
pub struct ResourceID(pub u64);

impl ResourceID {
    /// The name that a path, written as text, gives a resource.
    pub fn of_name(name: &str) -> (id: ResourceID)
        ensures
            id.0 == name_hash(name@),
    {
        ResourceID(hash_name(name))
    }
}

} // verus!
