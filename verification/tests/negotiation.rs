//! Capability-mask encodings, offer rewriting, and the allocator decision.

use deka_gst_wgpu::buffer_memory::{AllocationParams, WgpuMemoryAllocator};
use deka_gst_wgpu::caps::{
    caps_intersect_first, make_wgpu_buffer_usages_for_caps, CapsStructure, CapsUsage, MediaType,
    MemoryFeature,
};
use deka_gst_wgpu::context::{DeviceLimits, PollType, WgpuContext};
use deka_gst_wgpu::errors::PipelineError;
use deka_gst_wgpu::negotiate::{AllocationQuery, PadDirection, ProposedAllocator};
use deka_gst_wgpu::stages::download::WgpuBufferDownload;
use deka_gst_wgpu::stages::sobel_mem::WgpuSobelMem;
use deka_gst_wgpu::stages::upload::{upload_src_allowed_usages, WgpuBufferUpload};
use deka_gst_wgpu::usages::{BufferUsages, TextureUsages};

fn ctx(id: u64) -> WgpuContext {
    WgpuContext::new(
        id,
        true,
        true,
        DeviceLimits { max_texture_dimension_2d: 8192 },
        PollType::Threaded,
    )
    .unwrap()
}

fn video(width: u32, height: u32) -> CapsStructure {
    CapsStructure {
        media: MediaType::Video,
        width,
        height,
        feature: MemoryFeature::SystemMemory,
        usage: CapsUsage::Missing,
    }
}

fn mask(map_read: bool, map_write: bool, copy_src: bool, copy_dst: bool) -> BufferUsages {
    BufferUsages { map_read, map_write, copy_src, copy_dst }
}

#[test]
fn buffer_mask_bits_round_trip() {
    let m = mask(true, false, true, true);
    assert_eq!(m.bits(), 1 | 4 | 8);
    assert_eq!(BufferUsages::from_bits_truncate(m.bits()), m);
    // Unknown bits are dropped.
    assert_eq!(BufferUsages::from_bits_truncate(0xFF0 | 2), mask(false, true, false, false));
}

#[test]
fn texture_mask_bits_round_trip() {
    let m = TextureUsages {
        copy_src: true,
        copy_dst: true,
        texture_binding: false,
        storage_binding: true,
    };
    assert_eq!(m.bits(), 1 | 2 | 8);
    assert_eq!(TextureUsages::from_bits_truncate(m.bits()), m);
}

#[test]
fn mask_containment_and_intersection() {
    let a = mask(true, false, true, false);
    let b = mask(true, false, false, false);
    assert!(a.contains(&b));
    assert!(!b.contains(&a));
    assert!(a.intersects(&b));
    assert!(!b.intersects(&mask(false, true, false, true)));
    assert_eq!(a.union(&mask(false, true, false, false)), mask(true, true, true, false));
}

#[test]
fn offer_rewriting_is_the_cross_product() {
    let caps = vec![video(64, 48), video(128, 96)];
    let usages = upload_src_allowed_usages();
    let offer = make_wgpu_buffer_usages_for_caps(&caps, &usages);
    assert_eq!(offer.len(), 4);
    // Row-major: structure 0 with each mask, then structure 1.
    assert_eq!(offer[0].width, 64);
    assert_eq!(offer[0].feature, MemoryFeature::WgpuBuffer);
    assert_eq!(offer[0].usage, CapsUsage::Buffer(mask(false, true, false, false)));
    assert_eq!(offer[1].usage, CapsUsage::Buffer(mask(false, true, true, false)));
    assert_eq!(offer[2].width, 128);
}

#[test]
fn intersection_keeps_exactly_the_shared_descriptors() {
    let caps = vec![video(64, 48)];
    let usages = upload_src_allowed_usages();
    let offer = make_wgpu_buffer_usages_for_caps(&caps, &usages);
    let filter = vec![offer[1], video(320, 240)];
    let kept = caps_intersect_first(&filter, &offer);
    assert_eq!(kept.len(), 1);
    assert_eq!(kept[0], offer[1]);
}

#[test]
fn upload_transform_caps_strips_toward_upstream() {
    let stage = WgpuBufferUpload::new();
    let usages = upload_src_allowed_usages();
    let gpu_caps = make_wgpu_buffer_usages_for_caps(&vec![video(64, 48)], &usages);
    let host_side = stage.transform_caps(PadDirection::Src, &gpu_caps, None);
    assert_eq!(host_side.len(), 2);
    assert_eq!(host_side[0].feature, MemoryFeature::SystemMemory);
    assert_eq!(host_side[0].usage, CapsUsage::Missing);
    assert_eq!(host_side[0].width, 64);
}

#[test]
fn upload_set_caps_commits_the_mask() {
    let mut stage = WgpuBufferUpload::new();
    let usages = upload_src_allowed_usages();
    let outcaps = make_wgpu_buffer_usages_for_caps(&vec![video(64, 48)], &usages);
    stage.set_caps(&vec![video(64, 48)], &outcaps).unwrap();
    assert_eq!(stage.src_usages, Some(mask(false, true, false, false)));
}

#[test]
fn upload_set_caps_rejects_missing_descriptor_and_missing_bit() {
    let mut stage = WgpuBufferUpload::new();
    let empty: Vec<CapsStructure> = Vec::new();
    assert_eq!(
        stage.set_caps(&vec![video(64, 48)], &empty).unwrap_err(),
        PipelineError::MalformedDescriptor
    );
    // A descriptor without a capability field is malformed.
    assert_eq!(
        stage.set_caps(&vec![video(64, 48)], &vec![video(64, 48)]).unwrap_err(),
        PipelineError::MalformedDescriptor
    );
    // A mask without the write-map bit cannot serve the upload output.
    let mut bad = video(64, 48);
    bad.feature = MemoryFeature::WgpuBuffer;
    bad.usage = CapsUsage::Buffer(mask(true, false, false, true));
    assert_eq!(
        stage.set_caps(&vec![video(64, 48)], &vec![bad]).unwrap_err(),
        PipelineError::CapabilityMissing
    );
    assert_eq!(stage.src_usages, None);
}

#[test]
fn decide_allocation_before_commit_is_refused() {
    let mut stage = WgpuBufferUpload::new();
    stage.set_wgpu_context(ctx(1));
    let mut query = AllocationQuery { caps: vec![video(64, 48)], params: Vec::new() };
    assert_eq!(
        stage.decide_allocation(&mut query).unwrap_err(),
        PipelineError::NegotiatedBeforeCommit
    );
}

#[test]
fn decide_allocation_keeps_only_adequate_gpu_allocators() {
    let context = ctx(1);
    let mut stage = WgpuBufferUpload::new();
    stage.set_wgpu_context(context);
    let usages = upload_src_allowed_usages();
    let outcaps = make_wgpu_buffer_usages_for_caps(&vec![video(64, 48)], &usages);
    stage.set_caps(&vec![video(64, 48)], &outcaps).unwrap();

    let good = WgpuMemoryAllocator::new_with_explicit_usage(context, mask(false, true, true, false));
    let inadequate =
        WgpuMemoryAllocator::new_with_explicit_usage(context, mask(true, false, false, true));
    let mut query = AllocationQuery {
        caps: vec![video(64, 48)],
        params: vec![
            (ProposedAllocator::Other, AllocationParams { readonly: false }),
            (ProposedAllocator::WgpuBuffer(inadequate), AllocationParams { readonly: false }),
            (ProposedAllocator::WgpuBuffer(good), AllocationParams { readonly: false }),
        ],
    };
    stage.decide_allocation(&mut query).unwrap();
    assert_eq!(query.params.len(), 1);
    match &query.params[0].0 {
        ProposedAllocator::WgpuBuffer(a) => {
            assert_eq!(a.explicit_usages(), Some(mask(false, true, true, false)));
        }
        _ => panic!("a GPU buffer allocator must have been kept"),
    }
}

#[test]
fn decide_allocation_supplies_own_allocator_when_none_fits() {
    let context = ctx(1);
    let mut stage = WgpuBufferUpload::new();
    stage.set_wgpu_context(context);
    let usages = upload_src_allowed_usages();
    let outcaps = make_wgpu_buffer_usages_for_caps(&vec![video(64, 48)], &usages);
    stage.set_caps(&vec![video(64, 48)], &outcaps).unwrap();

    let mut query = AllocationQuery {
        caps: vec![video(64, 48)],
        params: vec![(ProposedAllocator::Other, AllocationParams { readonly: false })],
    };
    stage.decide_allocation(&mut query).unwrap();
    assert_eq!(query.params.len(), 1);
    match &query.params[0].0 {
        ProposedAllocator::WgpuBuffer(a) => {
            assert_eq!(a.explicit_usages(), stage.src_usages);
        }
        _ => panic!("the stage must have supplied its own allocator"),
    }
}

#[test]
fn propose_allocation_offers_the_committed_mask() {
    let context = ctx(1);
    let mut stage = WgpuBufferUpload::new();
    stage.set_wgpu_context(context);
    let usages = upload_src_allowed_usages();
    let outcaps = make_wgpu_buffer_usages_for_caps(&vec![video(64, 48)], &usages);
    stage.set_caps(&vec![video(64, 48)], &outcaps).unwrap();

    let mut query = AllocationQuery { caps: vec![video(64, 48)], params: Vec::new() };
    stage.propose_allocation(&mut query).unwrap();
    assert_eq!(query.params.len(), 1);
    match &query.params[0].0 {
        ProposedAllocator::WgpuBuffer(a) => assert_eq!(a.explicit_usages(), stage.src_usages),
        _ => panic!("the proposal must be a GPU buffer allocator"),
    }
}

#[test]
fn unit_size_is_the_packed_frame() {
    let stage = WgpuBufferUpload::new();
    assert_eq!(stage.unit_size(&video(64, 64)), Some(64 * 64 * 4));
    let mut audio = video(0, 0);
    audio.media = MediaType::Audio;
    assert_eq!(stage.unit_size(&audio), None);
}

#[test]
fn download_decide_allocation_switches_to_passthrough_for_mappable_input() {
    let context = ctx(1);
    let mut stage = WgpuBufferDownload::new();
    stage.set_wgpu_context(context);
    let mut incaps = video(64, 48);
    incaps.feature = MemoryFeature::WgpuBuffer;
    incaps.usage = CapsUsage::Buffer(mask(true, false, false, true));
    stage.set_caps(&vec![incaps], &vec![video(64, 48)]).unwrap();

    let before = vec![(ProposedAllocator::Other, AllocationParams { readonly: false })];
    let mut query = AllocationQuery { caps: vec![video(64, 48)], params: before.clone() };
    stage.decide_allocation(&mut query).unwrap();
    // The committed input is already host-mappable: no copy, no filtering.
    assert!(stage.passthrough);
    assert_eq!(query.params.len(), before.len());
}

#[test]
fn download_propose_allocation_reads_the_caps_mask() {
    let context = ctx(1);
    let mut stage = WgpuBufferDownload::new();
    stage.set_wgpu_context(context);

    let mut caps = video(64, 48);
    caps.feature = MemoryFeature::WgpuBuffer;
    caps.usage = CapsUsage::Buffer(mask(false, true, true, false));
    let mut query = AllocationQuery { caps: vec![caps], params: Vec::new() };
    stage.propose_allocation(&mut query).unwrap();
    match &query.params[0].0 {
        ProposedAllocator::WgpuBuffer(a) => {
            assert_eq!(a.explicit_usages(), Some(mask(false, true, true, false)));
        }
        _ => panic!("the proposal must be a GPU buffer allocator"),
    }

    // Caps without the capability field are malformed, not guessed at.
    let mut bare = AllocationQuery { caps: vec![video(64, 48)], params: Vec::new() };
    assert_eq!(
        stage.propose_allocation(&mut bare).unwrap_err(),
        PipelineError::MalformedDescriptor
    );
}

#[test]
fn sobel_mem_proposes_a_derived_mask_allocator() {
    let context = ctx(1);
    let mut stage = WgpuSobelMem::new();
    stage.set_wgpu_context(context);
    let mut query = AllocationQuery { caps: vec![video(64, 48)], params: Vec::new() };
    stage.propose_allocation(&mut query).unwrap();
    match &query.params[0].0 {
        ProposedAllocator::WgpuBuffer(a) => assert_eq!(a.explicit_usages(), None),
        _ => panic!("the proposal must be a GPU buffer allocator"),
    }
}
