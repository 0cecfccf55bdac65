//! The texture stages: allocation, the two device-copy transforms, and their
//! negotiation steps.

use deka_gst_wgpu::buffer_memory::{AllocationParams, MapEvent, WgpuMemory, WgpuMemoryAllocator};
use deka_gst_wgpu::caps::{CapsStructure, CapsUsage, MediaType, MemoryFeature};
use deka_gst_wgpu::context::{DeviceLimits, PollType, WgpuContext};
use deka_gst_wgpu::errors::PipelineError;
use deka_gst_wgpu::negotiate::{AllocationQuery, Memory, PadDirection, ProposedAllocator};
use deka_gst_wgpu::stages::texture_copy::WgpuTextureCopy;
use deka_gst_wgpu::stages::texture_upload::{
    texture_upload_src_allowed_usages, WgpuTextureUpload,
};
use deka_gst_wgpu::texture_memory::{
    TextureDescriptor, TextureFormat, WgpuTextureMemory, WgpuTextureMemoryAllocator,
};
use deka_gst_wgpu::usages::{BufferUsages, TextureUsages};

fn ctx(id: u64) -> WgpuContext {
    WgpuContext::new(
        id,
        true,
        true,
        DeviceLimits { max_texture_dimension_2d: 8192 },
        PollType::Threaded,
    )
    .unwrap()
}

fn tmask(copy_src: bool, copy_dst: bool, texture_binding: bool, storage_binding: bool)
    -> TextureUsages {
    TextureUsages { copy_src, copy_dst, texture_binding, storage_binding }
}

fn bmask(map_read: bool, map_write: bool, copy_src: bool, copy_dst: bool) -> BufferUsages {
    BufferUsages { map_read, map_write, copy_src, copy_dst }
}

fn texture(context: WgpuContext, w: u32, h: u32, usage: TextureUsages) -> WgpuTextureMemory {
    let descriptor =
        TextureDescriptor { width: w, height: h, format: TextureFormat::Rgba8Unorm, usage };
    WgpuTextureMemoryAllocator::new(context, descriptor).allocate(true).unwrap()
}

fn gpu_buffer(context: WgpuContext, usages: BufferUsages, size: usize) -> WgpuMemory {
    WgpuMemoryAllocator::new_with_explicit_usage(context, usages)
        .allocate(size, None, true)
        .unwrap()
}

fn video_caps(w: u32, h: u32) -> CapsStructure {
    CapsStructure {
        media: MediaType::Video,
        width: w,
        height: h,
        feature: MemoryFeature::SystemMemory,
        usage: CapsUsage::Missing,
    }
}

#[test]
fn texture_allocation_matches_its_descriptor() {
    let t = texture(ctx(1), 4, 2, tmask(false, true, true, false));
    assert_eq!(t.descriptor().width, 4);
    assert_eq!(t.descriptor().height, 2);
    assert_eq!(t.descriptor().byte_size(), 4 * 2 * 4);
}

#[test]
fn texture_allocation_reports_device_failure() {
    let descriptor = TextureDescriptor {
        width: 4,
        height: 4,
        format: TextureFormat::Rgba8Unorm,
        usage: tmask(false, true, false, false),
    };
    let r = WgpuTextureMemoryAllocator::new(ctx(1), descriptor).allocate(false);
    assert_eq!(r.unwrap_err(), PipelineError::AllocationFailed);
}

#[test]
fn buffer_to_texture_upload_moves_the_full_extent() {
    let context = ctx(1);
    let events = vec![MapEvent::Ready];
    let stage = WgpuTextureUpload::new();

    // A 2×2 frame: 16 bytes, written into the source buffer first.
    let mut src = gpu_buffer(context, bmask(false, true, true, false), 16);
    src.map_write(16, &events, 4).unwrap();
    let payload: Vec<u8> = (1..=16u8).collect();
    src.write_mapped(&payload);
    src.unmap();

    let mut out = Memory::WgpuTexture(texture(context, 2, 2, tmask(true, true, false, false)));
    stage.transform(&Memory::WgpuBuffer(src), &mut out).unwrap();

    // Copy the texture back out through the copy stage's sibling op to see
    // the texels arrived.
    match out {
        Memory::WgpuTexture(t) => {
            let mut readback = gpu_buffer(context, bmask(true, false, false, true), 16);
            deka_gst_wgpu::texture_memory::copy_texture_to_buffer(&t, &mut readback, 2, 2);
            readback.map_read(16, &events, 4).unwrap();
            assert_eq!(readback.read_mapped(), payload);
        }
        _ => panic!("the transform left a texture"),
    }
}

#[test]
fn texture_upload_rejects_wrong_kinds_and_small_buffers() {
    let context = ctx(1);
    let stage = WgpuTextureUpload::new();
    let mut out = Memory::WgpuTexture(texture(context, 2, 2, tmask(false, true, false, false)));
    assert_eq!(
        stage.transform(&Memory::System(vec![0; 16]), &mut out).unwrap_err(),
        PipelineError::NotNegotiated
    );
    // A buffer smaller than the extent cannot be copied in full.
    let small = gpu_buffer(context, bmask(false, true, true, false), 8);
    assert_eq!(
        stage.transform(&Memory::WgpuBuffer(small), &mut out).unwrap_err(),
        PipelineError::NotNegotiated
    );
}

#[test]
fn texture_to_texture_copy_moves_the_texels() {
    let context = ctx(1);
    let events = vec![MapEvent::Ready];
    let upload = WgpuTextureUpload::new();
    let copy = WgpuTextureCopy::new();

    let mut src = gpu_buffer(context, bmask(false, true, true, false), 16);
    src.map_write(16, &events, 4).unwrap();
    let payload: Vec<u8> = (100..=115u8).collect();
    src.write_mapped(&payload);
    src.unmap();

    let mut first = Memory::WgpuTexture(texture(context, 2, 2, tmask(true, true, false, false)));
    upload.transform(&Memory::WgpuBuffer(src), &mut first).unwrap();

    let mut second = Memory::WgpuTexture(texture(context, 2, 2, tmask(true, true, false, false)));
    copy.transform(&first, &mut second).unwrap();

    match second {
        Memory::WgpuTexture(t) => {
            let mut readback = gpu_buffer(context, bmask(true, false, false, true), 16);
            deka_gst_wgpu::texture_memory::copy_texture_to_buffer(&t, &mut readback, 2, 2);
            readback.map_read(16, &events, 4).unwrap();
            assert_eq!(readback.read_mapped(), payload);
        }
        _ => panic!("the copy left a texture"),
    }
}

#[test]
fn texture_copy_rejects_mismatched_shapes() {
    let context = ctx(1);
    let copy = WgpuTextureCopy::new();
    let a = Memory::WgpuTexture(texture(context, 2, 2, tmask(true, false, false, false)));
    let mut b = Memory::WgpuTexture(texture(context, 4, 4, tmask(false, true, false, false)));
    assert_eq!(copy.transform(&a, &mut b).unwrap_err(), PipelineError::NotNegotiated);
}

#[test]
fn texture_upload_set_caps_needs_both_fields() {
    let mut stage = WgpuTextureUpload::new();
    let mut incaps = video_caps(2, 2);
    incaps.usage = CapsUsage::Buffer(bmask(false, true, true, false));
    let mut outcaps = video_caps(2, 2);
    outcaps.usage = CapsUsage::Texture(tmask(false, true, true, false));
    stage.set_caps(&vec![incaps], &vec![outcaps]).unwrap();
    assert_eq!(stage.src_usages, Some(tmask(false, true, true, false)));
    assert_eq!(stage.sink_usages, Some(bmask(false, true, true, false)));

    // A texture mask the stage cannot copy into lacks a capability.
    let mut bad_out = video_caps(2, 2);
    bad_out.usage = CapsUsage::Texture(tmask(true, false, false, false));
    assert_eq!(
        stage.set_caps(&vec![incaps], &vec![bad_out]).unwrap_err(),
        PipelineError::CapabilityMissing
    );
    // A descriptor without any capability field is malformed.
    assert_eq!(
        stage.set_caps(&vec![incaps], &vec![video_caps(2, 2)]).unwrap_err(),
        PipelineError::MalformedDescriptor
    );
}

#[test]
fn texture_decide_allocation_falls_back_to_the_caps_shape() {
    let context = ctx(1);
    let mut stage = WgpuTextureUpload::new();
    stage.set_wgpu_context(context);
    let mut incaps = video_caps(8, 4);
    incaps.usage = CapsUsage::Buffer(bmask(false, true, true, false));
    let mut outcaps = video_caps(8, 4);
    outcaps.usage = CapsUsage::Texture(tmask(false, true, true, false));
    stage.set_caps(&vec![incaps], &vec![outcaps]).unwrap();

    let mut query = AllocationQuery {
        caps: vec![outcaps],
        params: vec![(ProposedAllocator::Other, AllocationParams { readonly: false })],
    };
    stage.decide_allocation(&mut query).unwrap();
    assert_eq!(query.params.len(), 1);
    match &query.params[0].0 {
        ProposedAllocator::WgpuTexture(a) => {
            assert_eq!(a.descriptor().width, 8);
            assert_eq!(a.descriptor().height, 4);
            assert_eq!(a.descriptor().usage, tmask(false, true, true, false));
        }
        _ => panic!("the stage must have supplied its own texture allocator"),
    }
}

#[test]
fn texture_upload_offer_carries_every_allowed_mask() {
    let stage = WgpuTextureUpload::new();
    let offer = stage.transform_caps(PadDirection::Sink, &vec![video_caps(2, 2)], None);
    let allowed = texture_upload_src_allowed_usages();
    assert_eq!(offer.len(), allowed.len());
    for (i, u) in allowed.iter().enumerate() {
        assert_eq!(offer[i].feature, MemoryFeature::WgpuTexture);
        assert_eq!(offer[i].usage, CapsUsage::Texture(*u));
    }
}
