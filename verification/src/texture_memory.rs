//! GPU-backed 2-D texture memory: the texture object, its allocator, and the
//! device-side copies that bridge linear buffers and textures.
//!
//! Textures are device-resident only: they carry a fixed shape and format
//! and never support map/unmap — moving pixels into or out of a texture
//! always goes through a buffer intermediary and an explicit device copy.

use vstd::prelude::*;

use crate::buffer_memory::{spec_copy_into, WgpuMemory};
use crate::context::WgpuContext;
use crate::errors::PipelineError;
use crate::usages::TextureUsages;

verus! {

/// The caps feature that marks a buffer as GPU-texture-backed.
pub fn gst_caps_feature_memory_wgpu_texture() -> (r: String)
    ensures
        r@ == spec_feature_memory_wgpu_texture(),
{
    "memory:WgpuTexture".to_owned()
}

/// The view of the GPU-texture caps feature name.
pub open spec fn spec_feature_memory_wgpu_texture() -> Seq<char> {
    "memory:WgpuTexture"@
}

/// Largest width or height this subsystem ever asks of a texture; devices
/// whose limit is smaller bound it further.
pub const MAX_TEXTURE_DIMENSION: u32 = 16384;

/// Bytes one texel occupies in every format the subsystem uses.
pub const BYTES_PER_TEXEL: u32 = 4;

/// The texel format of a texture.  The pipeline moves four-byte RGBA-class
/// texels; multi-plane video formats exist upstream but never reach the GPU
/// memory subsystem.
#[derive(Clone, Copy, Debug, PartialEq, Eq, Structural)]
pub enum TextureFormat {
    /// Four unsigned normalised bytes: red, green, blue, alpha.
    Rgba8Unorm,
}

/// The fixed shape, format and capability mask a texture is created with.
#[derive(Clone, Copy, Debug, PartialEq, Eq, Structural)]
pub struct TextureDescriptor {
    /// Width in texels.
    pub width: u32,
    /// Height in texels.
    pub height: u32,
    /// The texel format.
    pub format: TextureFormat,
    /// The capability mask fixed at allocation.
    pub usage: TextureUsages,
}

impl TextureDescriptor {
    /// A shape this subsystem can allocate: both dimensions positive and
    /// within the fixed upper bound.
    pub open spec fn wf(self) -> bool {
        1 <= self.width <= MAX_TEXTURE_DIMENSION && 1 <= self.height <= MAX_TEXTURE_DIMENSION
    }

    /// The byte size of the texture's full extent.
    pub open spec fn spec_byte_size(self) -> int {
        self.width * self.height * BYTES_PER_TEXEL
    }

    /// Computes the byte size of the full 2-D extent.
    pub fn byte_size(&self) -> (r: usize)
        requires
            self.wf(),
        ensures
            r == self.spec_byte_size(),
    {
        proof {
            assert(self.width * self.height * BYTES_PER_TEXEL <= 16384 * 16384 * 4) by (
            nonlinear_arith)
                requires
                    1 <= self.width <= 16384,
                    1 <= self.height <= 16384,
                    BYTES_PER_TEXEL == 4,
            ;
        }
        (self.width as usize) * (self.height as usize) * (BYTES_PER_TEXEL as usize)
    }
}

/// One GPU-resident 2-D texture: a fixed descriptor, the texels the device
/// holds for it, and the shared back-reference to the owning context.
/// Textures are never host-mappable in this design.
#[derive(Clone, Debug)]
pub struct WgpuTextureMemory {
    /// The shape, format and mask fixed at allocation.
    pub descriptor: TextureDescriptor,
    /// The device-resident texels, row-major, four bytes per texel.
    pub data: Vec<u8>,
    /// The context whose device owns the texture.
    pub context: WgpuContext,
}

impl WgpuTextureMemory {
    /// A consistent texture: a well-formed shape whose byte store covers
    /// exactly the full extent.
    pub open spec fn wf(self) -> bool {
        self.descriptor.wf() && self.data.len() == self.descriptor.spec_byte_size()
    }

    /// The descriptor the texture was created with.
    pub fn descriptor(&self) -> (r: &TextureDescriptor)
        ensures
            *r == self.descriptor,
    {
        &self.descriptor
    }

    /// The context whose device owns this texture.
    pub fn context(&self) -> (r: &WgpuContext)
        ensures
            *r == self.context,
    {
        &self.context
    }
}

/// The allocator that produces GPU texture memory objects, all with the one
/// descriptor bound at construction.
#[derive(Clone, Copy, Debug)]
pub struct WgpuTextureMemoryAllocator {
    /// The context whose device performs the allocations.
    pub context: WgpuContext,
    /// The descriptor bound to every allocation.
    pub descriptor: TextureDescriptor,
}

impl WgpuTextureMemoryAllocator {
    /// An allocator bound to one context and one texture descriptor.
    pub fn new(context: WgpuContext, descriptor: TextureDescriptor) -> (r: Self)
        ensures
            r.context == context,
            r.descriptor == descriptor,
    {
        WgpuTextureMemoryAllocator { context, descriptor }
    }

    /// The context this allocator allocates on.
    pub fn context(&self) -> (r: WgpuContext)
        ensures
            r == self.context,
    {
        self.context
    }

    /// The descriptor bound to every allocation.
    pub fn descriptor(&self) -> (r: &TextureDescriptor)
        ensures
            *r == self.descriptor,
    {
        &self.descriptor
    }

    /// Allocates one texture under the bound descriptor.  The device
    /// performs the actual allocation; the caller reports whether it
    /// succeeded, and a device-side failure surfaces as `AllocationFailed`.
    /// A fresh texture is zero-filled.
    pub fn allocate(&self, device_ok: bool) -> (r: Result<WgpuTextureMemory, PipelineError>)
        requires
            self.context.alive,
            self.descriptor.wf(),
        ensures
            !device_ok ==> r == Err::<WgpuTextureMemory, PipelineError>(
                PipelineError::AllocationFailed,
            ),
            device_ok ==> (r matches Ok(t) && t.wf() && t.descriptor == self.descriptor && t.data@
                == Seq::new(self.descriptor.spec_byte_size() as nat, |i: int| 0u8) && t.context
                == self.context),
    {
        if !device_ok {
            return Err(PipelineError::AllocationFailed);
        }
        let size = self.descriptor.byte_size();
        let mut data: Vec<u8> = Vec::new();
        let mut i: usize = 0;
        while i < size
            invariant
                i <= size,
                data@ =~= Seq::new(i as nat, |j: int| 0u8),
            decreases size - i,
        {
            data.push(0);
            i = i + 1;
        }
        proof {
            assert(data@ =~= Seq::new(size as nat, |j: int| 0u8));
        }
        Ok(WgpuTextureMemory { descriptor: self.descriptor, data, context: self.context })
    }
}

/// The device-side copy of a full 2-D extent from a linear buffer into a
/// texture, rows packed at four bytes per texel.  The extent must be the
/// texture's own shape, the buffer must cover it, and both resources must
/// live on the same context.
pub fn copy_buffer_to_texture(src: &WgpuMemory, dst: &mut WgpuTextureMemory, width: u32, height: u32)
    requires
        src.wf(),
        old(dst).wf(),
        src.usage.copy_src,
        old(dst).descriptor.usage.copy_dst,
        src.view is None,
        width == old(dst).descriptor.width,
        height == old(dst).descriptor.height,
        src.data@.len() >= old(dst).descriptor.spec_byte_size(),
        src.context.id == old(dst).context.id,
    ensures
        final(dst).wf(),
        final(dst).data@ == src.data@.take(old(dst).descriptor.spec_byte_size()),
        final(dst).descriptor == old(dst).descriptor,
        final(dst).context == old(dst).context,
{
    let n = dst.descriptor.byte_size();
    let mut i: usize = 0;
    while i < n
        invariant
            i <= n,
            n <= src.data@.len(),
            n <= dst.data@.len(),
            dst.data@.len() == old(dst).data@.len(),
            forall|j: int| 0 <= j < i ==> dst.data@[j] == src.data@[j],
            forall|j: int| i <= j < dst.data@.len() ==> dst.data@[j] == old(dst).data@[j],
            dst.descriptor == old(dst).descriptor,
            dst.context == old(dst).context,
        decreases n - i,
    {
        let b = src.data[i];
        dst.data[i] = b;
        i = i + 1;
    }
    proof {
        assert(dst.data@ =~= src.data@.take(old(dst).descriptor.spec_byte_size()));
    }
}

/// The device-side copy of a texture's full 2-D extent into a linear buffer,
/// rows packed at four bytes per texel.  The buffer keeps whatever lay
/// beyond the extent.
pub fn copy_texture_to_buffer(src: &WgpuTextureMemory, dst: &mut WgpuMemory, width: u32, height: u32)
    requires
        src.wf(),
        old(dst).wf(),
        src.descriptor.usage.copy_src,
        old(dst).usage.copy_dst,
        old(dst).view is None,
        width == src.descriptor.width,
        height == src.descriptor.height,
        old(dst).data@.len() >= src.descriptor.spec_byte_size(),
        src.context.id == old(dst).context.id,
    ensures
        final(dst).wf(),
        final(dst).data@ == spec_copy_into(old(dst).data@, src.data@),
        final(dst).view is None,
        final(dst).usage == old(dst).usage,
        final(dst).context == old(dst).context,
{
    let n = src.descriptor.byte_size();
    let mut i: usize = 0;
    while i < n
        invariant
            i <= n,
            n == src.data@.len(),
            n <= dst.data@.len(),
            dst.data@.len() == old(dst).data@.len(),
            forall|j: int| 0 <= j < i ==> dst.data@[j] == src.data@[j],
            forall|j: int| i <= j < dst.data@.len() ==> dst.data@[j] == old(dst).data@[j],
            dst.view == old(dst).view,
            dst.usage == old(dst).usage,
            dst.context == old(dst).context,
        decreases n - i,
    {
        let b = src.data[i];
        dst.data[i] = b;
        i = i + 1;
    }
    proof {
        assert(dst.data@ =~= spec_copy_into(old(dst).data@, src.data@));
    }
}

/// One full-extent write into a storage-bound texture, as a compute program
/// performs when its dispatch grid covers the whole image: every texel is
/// replaced by the given bytes.
pub fn write_full_extent(dst: &mut WgpuTextureMemory, texels: &Vec<u8>)
    requires
        old(dst).wf(),
        old(dst).descriptor.usage.storage_binding,
        texels@.len() == old(dst).descriptor.spec_byte_size(),
    ensures
        final(dst).wf(),
        final(dst).data@ == texels@,
        final(dst).descriptor == old(dst).descriptor,
        final(dst).context == old(dst).context,
{
    let n = dst.descriptor.byte_size();
    let mut i: usize = 0;
    while i < n
        invariant
            i <= n,
            n == texels@.len(),
            n == dst.data@.len(),
            dst.data@.len() == old(dst).data@.len(),
            forall|j: int| 0 <= j < i ==> dst.data@[j] == texels@[j],
            dst.descriptor == old(dst).descriptor,
            dst.context == old(dst).context,
        decreases n - i,
    {
        let b = texels[i];
        dst.data[i] = b;
        i = i + 1;
    }
    proof {
        assert(dst.data@ =~= texels@);
    }
}

/// The device-side texture-to-texture copy over the full 2-D extent, which
/// both textures must share.
pub fn copy_texture_to_texture(
    src: &WgpuTextureMemory,
    dst: &mut WgpuTextureMemory,
    width: u32,
    height: u32,
)
    requires
        src.wf(),
        old(dst).wf(),
        src.descriptor.usage.copy_src,
        old(dst).descriptor.usage.copy_dst,
        width == src.descriptor.width && width == old(dst).descriptor.width,
        height == src.descriptor.height && height == old(dst).descriptor.height,
        src.descriptor.format == old(dst).descriptor.format,
        src.context.id == old(dst).context.id,
    ensures
        final(dst).wf(),
        final(dst).data@ == src.data@,
        final(dst).descriptor == old(dst).descriptor,
        final(dst).context == old(dst).context,
{
    proof {
        assert(src.descriptor.spec_byte_size() == old(dst).descriptor.spec_byte_size());
    }
    let n = src.descriptor.byte_size();
    let mut i: usize = 0;
    while i < n
        invariant
            i <= n,
            n == src.data@.len(),
            n == dst.data@.len(),
            dst.data@.len() == old(dst).data@.len(),
            forall|j: int| 0 <= j < i ==> dst.data@[j] == src.data@[j],
            forall|j: int| i <= j < dst.data@.len() ==> dst.data@[j] == old(dst).data@[j],
            dst.descriptor == old(dst).descriptor,
            dst.context == old(dst).context,
        decreases n - i,
    {
        let b = src.data[i];
        dst.data[i] = b;
        i = i + 1;
    }
    proof {
        assert(dst.data@ =~= src.data@);
    }
}

} // verus!
