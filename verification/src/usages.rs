//! Capability/usage masks for GPU memory objects.
//!
//! A mask records which operations a memory object supports.  Buffers draw
//! from {read-map, write-map, copy-source, copy-destination}; textures from
//! {copy-source, copy-destination, sampled-binding, storage-binding}.  The
//! masks travel between stages as small integers, so each mask type carries a
//! proved encoding to and from its bit pattern.

use vstd::prelude::*;

verus! {

/// Bit value of the buffer read-map capability.
pub const BUFFER_MAP_READ_BIT: u32 = 1;
/// Bit value of the buffer write-map capability.
pub const BUFFER_MAP_WRITE_BIT: u32 = 2;
/// Bit value of the buffer copy-source capability.
pub const BUFFER_COPY_SRC_BIT: u32 = 4;
/// Bit value of the buffer copy-destination capability.
pub const BUFFER_COPY_DST_BIT: u32 = 8;

/// The capability mask of a linear GPU buffer.
#[derive(Clone, Copy, Debug, PartialEq, Eq, Structural)]
pub struct BufferUsages {
    /// The buffer can be mapped for host reads.
    pub map_read: bool,
    /// The buffer can be mapped for host writes.
    pub map_write: bool,
    /// The buffer can be the source of a device-side copy.
    pub copy_src: bool,
    /// The buffer can be the destination of a device-side copy.
    pub copy_dst: bool,
}

impl BufferUsages {
    /// The empty mask: no operation is permitted.
    pub fn empty() -> (r: Self)
        ensures
            r == Self::spec_empty(),
    {
        BufferUsages { map_read: false, map_write: false, copy_src: false, copy_dst: false }
    }

    /// The mask with no bit set.
    pub open spec fn spec_empty() -> Self {
        BufferUsages { map_read: false, map_write: false, copy_src: false, copy_dst: false }
    }

    /// Whether no bit is set.
    pub fn is_empty(&self) -> (r: bool)
        ensures
            r == (*self == Self::spec_empty()),
    {
        !self.map_read && !self.map_write && !self.copy_src && !self.copy_dst
    }

    /// Whether every bit of `other` is also set in `self`.
    pub open spec fn spec_contains(self, other: Self) -> bool {
        (other.map_read ==> self.map_read) && (other.map_write ==> self.map_write)
            && (other.copy_src ==> self.copy_src) && (other.copy_dst ==> self.copy_dst)
    }

    /// Whether `self` has every capability of `other`.
    pub fn contains(&self, other: &Self) -> (r: bool)
        ensures
            r == self.spec_contains(*other),
    {
        (!other.map_read || self.map_read) && (!other.map_write || self.map_write)
            && (!other.copy_src || self.copy_src) && (!other.copy_dst || self.copy_dst)
    }

    /// Whether `self` and `other` share at least one bit.
    pub open spec fn spec_intersects(self, other: Self) -> bool {
        (self.map_read && other.map_read) || (self.map_write && other.map_write)
            || (self.copy_src && other.copy_src) || (self.copy_dst && other.copy_dst)
    }

    /// Whether any capability is shared with `other`.
    pub fn intersects(&self, other: &Self) -> (r: bool)
        ensures
            r == self.spec_intersects(*other),
    {
        (self.map_read && other.map_read) || (self.map_write && other.map_write)
            || (self.copy_src && other.copy_src) || (self.copy_dst && other.copy_dst)
    }

    /// The mask holding every bit of `self` and of `other`.
    pub fn union(&self, other: &Self) -> (r: Self)
        ensures
            r == self.spec_union(*other),
    {
        BufferUsages {
            map_read: self.map_read || other.map_read,
            map_write: self.map_write || other.map_write,
            copy_src: self.copy_src || other.copy_src,
            copy_dst: self.copy_dst || other.copy_dst,
        }
    }

    /// The bitwise union of two masks.
    pub open spec fn spec_union(self, other: Self) -> Self {
        BufferUsages {
            map_read: self.map_read || other.map_read,
            map_write: self.map_write || other.map_write,
            copy_src: self.copy_src || other.copy_src,
            copy_dst: self.copy_dst || other.copy_dst,
        }
    }

    /// The integer encoding of the mask.
    pub open spec fn spec_bits(self) -> u32 {
        (if self.map_read {
            BUFFER_MAP_READ_BIT
        } else {
            0
        }) | (if self.map_write {
            BUFFER_MAP_WRITE_BIT
        } else {
            0
        }) | (if self.copy_src {
            BUFFER_COPY_SRC_BIT
        } else {
            0
        }) | (if self.copy_dst {
            BUFFER_COPY_DST_BIT
        } else {
            0
        })
    }

    /// Encodes the mask as the integer carried in capability descriptors.
    pub fn bits(&self) -> (r: u32)
        ensures
            r == self.spec_bits(),
    {
        let mr: u32 = if self.map_read { BUFFER_MAP_READ_BIT } else { 0 };
        let mw: u32 = if self.map_write { BUFFER_MAP_WRITE_BIT } else { 0 };
        let cs: u32 = if self.copy_src { BUFFER_COPY_SRC_BIT } else { 0 };
        let cd: u32 = if self.copy_dst { BUFFER_COPY_DST_BIT } else { 0 };
        mr | mw | cs | cd
    }

    /// The mask a bit pattern denotes; unknown bits are dropped.
    pub open spec fn spec_from_bits(bits: u32) -> Self {
        BufferUsages {
            map_read: bits & BUFFER_MAP_READ_BIT != 0,
            map_write: bits & BUFFER_MAP_WRITE_BIT != 0,
            copy_src: bits & BUFFER_COPY_SRC_BIT != 0,
            copy_dst: bits & BUFFER_COPY_DST_BIT != 0,
        }
    }

    /// Decodes a bit pattern, ignoring bits that name no known capability.
    pub fn from_bits_truncate(bits: u32) -> (r: Self)
        ensures
            r == Self::spec_from_bits(bits),
    {
        BufferUsages {
            map_read: bits & BUFFER_MAP_READ_BIT != 0,
            map_write: bits & BUFFER_MAP_WRITE_BIT != 0,
            copy_src: bits & BUFFER_COPY_SRC_BIT != 0,
            copy_dst: bits & BUFFER_COPY_DST_BIT != 0,
        }
    }
}

/// Decoding the encoding of any buffer mask gives the mask back: the bit
/// pattern loses no capability.
pub proof fn lemma_buffer_bits_roundtrip(u: BufferUsages)
    ensures
        BufferUsages::spec_from_bits(u.spec_bits()) == u,
{
    let mr: u32 = if u.map_read { 1 } else { 0 };
    let mw: u32 = if u.map_write { 2 } else { 0 };
    let cs: u32 = if u.copy_src { 4 } else { 0 };
    let cd: u32 = if u.copy_dst { 8 } else { 0 };
    let b = mr | mw | cs | cd;
    assert(((b & 1u32 != 0) == (mr == 1)) && ((b & 2u32 != 0) == (mw == 2)) && ((b & 4u32 != 0)
        == (cs == 4)) && ((b & 8u32 != 0) == (cd == 8))) by (bit_vector)
        requires
            b == mr | mw | cs | cd,
            mr == 0 || mr == 1,
            mw == 0 || mw == 2,
            cs == 0 || cs == 4,
            cd == 0 || cd == 8,
    ;
}

/// Bit value of the texture copy-source capability.
pub const TEXTURE_COPY_SRC_BIT: u32 = 1;
/// Bit value of the texture copy-destination capability.
pub const TEXTURE_COPY_DST_BIT: u32 = 2;
/// Bit value of the sampled-binding capability.
pub const TEXTURE_BINDING_BIT: u32 = 4;
/// Bit value of the storage-binding capability.
pub const STORAGE_BINDING_BIT: u32 = 8;

/// The capability mask of a 2-D GPU texture.
#[derive(Clone, Copy, Debug, PartialEq, Eq, Structural)]
pub struct TextureUsages {
    /// The texture can be the source of a device-side copy.
    pub copy_src: bool,
    /// The texture can be the destination of a device-side copy.
    pub copy_dst: bool,
    /// The texture can be bound for sampling in a shader.
    pub texture_binding: bool,
    /// The texture can be bound as a writable storage image.
    pub storage_binding: bool,
}

impl TextureUsages {
    /// The empty mask: no operation is permitted.
    pub fn empty() -> (r: Self)
        ensures
            r == Self::spec_empty(),
    {
        TextureUsages {
            copy_src: false,
            copy_dst: false,
            texture_binding: false,
            storage_binding: false,
        }
    }

    /// The mask with no bit set.
    pub open spec fn spec_empty() -> Self {
        TextureUsages {
            copy_src: false,
            copy_dst: false,
            texture_binding: false,
            storage_binding: false,
        }
    }

    /// Whether no bit is set.
    pub fn is_empty(&self) -> (r: bool)
        ensures
            r == (*self == Self::spec_empty()),
    {
        !self.copy_src && !self.copy_dst && !self.texture_binding && !self.storage_binding
    }

    /// Whether every bit of `other` is also set in `self`.
    pub open spec fn spec_contains(self, other: Self) -> bool {
        (other.copy_src ==> self.copy_src) && (other.copy_dst ==> self.copy_dst)
            && (other.texture_binding ==> self.texture_binding) && (other.storage_binding
            ==> self.storage_binding)
    }

    /// Whether `self` has every capability of `other`.
    pub fn contains(&self, other: &Self) -> (r: bool)
        ensures
            r == self.spec_contains(*other),
    {
        (!other.copy_src || self.copy_src) && (!other.copy_dst || self.copy_dst)
            && (!other.texture_binding || self.texture_binding) && (!other.storage_binding
            || self.storage_binding)
    }

    /// Whether `self` and `other` share at least one bit.
    pub open spec fn spec_intersects(self, other: Self) -> bool {
        (self.copy_src && other.copy_src) || (self.copy_dst && other.copy_dst)
            || (self.texture_binding && other.texture_binding) || (self.storage_binding
            && other.storage_binding)
    }

    /// Whether any capability is shared with `other`.
    pub fn intersects(&self, other: &Self) -> (r: bool)
        ensures
            r == self.spec_intersects(*other),
    {
        (self.copy_src && other.copy_src) || (self.copy_dst && other.copy_dst)
            || (self.texture_binding && other.texture_binding) || (self.storage_binding
            && other.storage_binding)
    }

    /// The integer encoding of the mask.
    pub open spec fn spec_bits(self) -> u32 {
        (if self.copy_src {
            TEXTURE_COPY_SRC_BIT
        } else {
            0
        }) | (if self.copy_dst {
            TEXTURE_COPY_DST_BIT
        } else {
            0
        }) | (if self.texture_binding {
            TEXTURE_BINDING_BIT
        } else {
            0
        }) | (if self.storage_binding {
            STORAGE_BINDING_BIT
        } else {
            0
        })
    }

    /// Encodes the mask as the integer carried in capability descriptors.
    pub fn bits(&self) -> (r: u32)
        ensures
            r == self.spec_bits(),
    {
        let cs: u32 = if self.copy_src { TEXTURE_COPY_SRC_BIT } else { 0 };
        let cd: u32 = if self.copy_dst { TEXTURE_COPY_DST_BIT } else { 0 };
        let tb: u32 = if self.texture_binding { TEXTURE_BINDING_BIT } else { 0 };
        let sb: u32 = if self.storage_binding { STORAGE_BINDING_BIT } else { 0 };
        cs | cd | tb | sb
    }

    /// The mask a bit pattern denotes; unknown bits are dropped.
    pub open spec fn spec_from_bits(bits: u32) -> Self {
        TextureUsages {
            copy_src: bits & TEXTURE_COPY_SRC_BIT != 0,
            copy_dst: bits & TEXTURE_COPY_DST_BIT != 0,
            texture_binding: bits & TEXTURE_BINDING_BIT != 0,
            storage_binding: bits & STORAGE_BINDING_BIT != 0,
        }
    }

    /// Decodes a bit pattern, ignoring bits that name no known capability.
    pub fn from_bits_truncate(bits: u32) -> (r: Self)
        ensures
            r == Self::spec_from_bits(bits),
    {
        TextureUsages {
            copy_src: bits & TEXTURE_COPY_SRC_BIT != 0,
            copy_dst: bits & TEXTURE_COPY_DST_BIT != 0,
            texture_binding: bits & TEXTURE_BINDING_BIT != 0,
            storage_binding: bits & STORAGE_BINDING_BIT != 0,
        }
    }
}

/// Decoding the encoding of any texture mask gives the mask back.
pub proof fn lemma_texture_bits_roundtrip(u: TextureUsages)
    ensures
        TextureUsages::spec_from_bits(u.spec_bits()) == u,
{
    let cs: u32 = if u.copy_src { 1 } else { 0 };
    let cd: u32 = if u.copy_dst { 2 } else { 0 };
    let tb: u32 = if u.texture_binding { 4 } else { 0 };
    let sb: u32 = if u.storage_binding { 8 } else { 0 };
    let b = cs | cd | tb | sb;
    assert(((b & 1u32 != 0) == (cs == 1)) && ((b & 2u32 != 0) == (cd == 2)) && ((b & 4u32 != 0)
        == (tb == 4)) && ((b & 8u32 != 0) == (sb == 8))) by (bit_vector)
        requires
            b == cs | cd | tb | sb,
            cs == 0 || cs == 1,
            cd == 0 || cd == 2,
            tb == 0 || tb == 4,
            sb == 0 || sb == 8,
    ;
}

} // verus!
