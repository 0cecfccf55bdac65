//! The upload → buffer-copy → download round trip returns host data
//! unchanged, and the stages' per-buffer pass-through behaviour is stable.

use deka_gst_wgpu::buffer_memory::{MapEvent, WgpuMemory, WgpuMemoryAllocator};
use deka_gst_wgpu::context::{DeviceLimits, PollType, WgpuContext};
use deka_gst_wgpu::errors::PipelineError;
use deka_gst_wgpu::negotiate::Memory;
use deka_gst_wgpu::stages::download::WgpuBufferDownload;
use deka_gst_wgpu::stages::upload::WgpuBufferUpload;
use deka_gst_wgpu::usages::BufferUsages;

fn ctx(id: u64) -> WgpuContext {
    WgpuContext::new(
        id,
        true,
        true,
        DeviceLimits { max_texture_dimension_2d: 8192 },
        PollType::Threaded,
    )
    .unwrap()
}

fn mask(map_read: bool, map_write: bool, copy_src: bool, copy_dst: bool) -> BufferUsages {
    BufferUsages { map_read, map_write, copy_src, copy_dst }
}

fn gpu_buffer(context: WgpuContext, usages: BufferUsages, size: usize) -> WgpuMemory {
    WgpuMemoryAllocator::new_with_explicit_usage(context, usages)
        .allocate(size, None, true)
        .unwrap()
}

/// Uploads `payload` into a fresh GPU buffer, copies it device-side into a
/// host-readable buffer, downloads it, and returns the downloaded bytes.
fn round_trip(payload: Vec<u8>) -> Vec<u8> {
    let context = ctx(1);
    let events = vec![MapEvent::Ready];
    let n = payload.len();

    // Upload: host memory into a write-mappable GPU buffer.
    let upload = WgpuBufferUpload::new();
    let mut staged = Memory::WgpuBuffer(gpu_buffer(context, mask(false, true, true, false), n));
    upload
        .transform(&Memory::System(payload), &mut staged, &events, 4)
        .unwrap();

    // Buffer copy: the download stage's device-side copy into a readable
    // buffer of the same size.
    let download = WgpuBufferDownload::new();
    let mut readable = Memory::WgpuBuffer(gpu_buffer(context, mask(true, false, false, true), n));
    download.transform(&staged, &mut readable).unwrap();

    // Download: map the readable buffer and read the bytes back out.
    match readable {
        Memory::WgpuBuffer(mut b) => {
            b.map_read(n, &events, 4).unwrap();
            let out = b.read_mapped();
            b.unmap();
            out
        }
        _ => panic!("the copy left a GPU buffer"),
    }
}

#[test]
fn round_trip_empty() {
    assert_eq!(round_trip(Vec::new()), Vec::new());
}

#[test]
fn round_trip_one_byte() {
    assert_eq!(round_trip(vec![0xA7]), vec![0xA7]);
}

#[test]
fn round_trip_one_page() {
    let payload: Vec<u8> = (0..4096u32).map(|i| (i % 251) as u8).collect();
    assert_eq!(round_trip(payload.clone()), payload);
}

#[test]
fn round_trip_one_mebibyte() {
    let payload: Vec<u8> = (0..(1u32 << 20)).map(|i| (i % 253) as u8).collect();
    assert_eq!(round_trip(payload.clone()), payload);
}

#[test]
fn upload_transform_rejects_non_host_input() {
    let context = ctx(1);
    let events = vec![MapEvent::Ready];
    let upload = WgpuBufferUpload::new();
    let gpu_in = Memory::WgpuBuffer(gpu_buffer(context, mask(false, true, true, false), 4));
    let mut out = Memory::WgpuBuffer(gpu_buffer(context, mask(false, true, true, false), 4));
    assert_eq!(
        upload.transform(&gpu_in, &mut out, &events, 4).unwrap_err(),
        PipelineError::NotNegotiated
    );
}

#[test]
fn download_transform_rejects_foreign_memory() {
    let context = ctx(1);
    let download = WgpuBufferDownload::new();
    let mut out = Memory::WgpuBuffer(gpu_buffer(context, mask(true, false, false, true), 4));
    assert_eq!(
        download.transform(&Memory::Foreign, &mut out).unwrap_err(),
        PipelineError::NotNegotiated
    );
    assert_eq!(
        download
            .transform(&Memory::System(vec![1, 2, 3]), &mut out)
            .unwrap_err(),
        PipelineError::NotNegotiated
    );
}

#[test]
fn download_transform_rejects_missing_copy_bits() {
    let context = ctx(1);
    let download = WgpuBufferDownload::new();
    // Input without copy-source.
    let no_src = Memory::WgpuBuffer(gpu_buffer(context, mask(false, true, false, false), 4));
    let mut out = Memory::WgpuBuffer(gpu_buffer(context, mask(true, false, false, true), 4));
    assert_eq!(
        download.transform(&no_src, &mut out).unwrap_err(),
        PipelineError::NotNegotiated
    );
    // Output without copy-destination.
    let src = Memory::WgpuBuffer(gpu_buffer(context, mask(false, true, true, false), 4));
    let mut no_dst = Memory::WgpuBuffer(gpu_buffer(context, mask(true, false, false, false), 4));
    assert_eq!(
        download.transform(&src, &mut no_dst).unwrap_err(),
        PipelineError::NotNegotiated
    );
}

#[test]
fn upload_passthrough_follows_the_incoming_kind_and_is_stable() {
    let context = ctx(1);
    let mut stage = WgpuBufferUpload::new();
    stage.set_wgpu_context(context);

    let gpu = Memory::WgpuBuffer(gpu_buffer(context, mask(false, true, true, false), 4));
    // Entering pass-through is a change ...
    assert!(stage.before_transform(&gpu));
    assert!(stage.passthrough);
    // ... repeating the same kind is not: no extra copy is introduced.
    assert!(!stage.before_transform(&gpu));
    assert!(stage.passthrough);
    // A host buffer forces the copy path again.
    assert!(stage.before_transform(&Memory::System(vec![0; 4])));
    assert!(!stage.passthrough);
}

#[test]
fn download_passthrough_requires_a_mappable_mask() {
    let context = ctx(1);
    let mut stage = WgpuBufferDownload::new();
    stage.set_wgpu_context(context);

    let mappable = Memory::WgpuBuffer(gpu_buffer(context, mask(true, false, false, true), 4));
    assert!(stage.before_transform(&mappable));
    assert!(stage.passthrough);
    assert!(!stage.before_transform(&mappable));
    assert!(stage.passthrough);

    // A device-only buffer cannot be handed to the host as is.
    let device_only = Memory::WgpuBuffer(gpu_buffer(context, mask(false, false, true, true), 4));
    assert!(stage.before_transform(&device_only));
    assert!(!stage.passthrough);

    // Unrecognised memory can never pass through.
    assert!(!stage.before_transform(&Memory::Foreign));
    assert!(!stage.passthrough);
}

#[test]
fn stage_start_adopts_a_shared_context_or_publishes_its_own() {
    let shared = ctx(4);
    let own = ctx(5);
    let mut with_neighbour = WgpuBufferUpload::new();
    let created = with_neighbour.start(Some(&shared), own);
    assert!(!created);
    assert_eq!(with_neighbour.wgpu_context.unwrap().id, 4);

    let mut alone = WgpuBufferUpload::new();
    let created = alone.start(None, own);
    assert!(created);
    assert_eq!(alone.wgpu_context.unwrap().id, 5);

    // The first context wins over later offers.
    let mut held = WgpuBufferUpload::new();
    held.set_wgpu_context(shared);
    let created = held.start(Some(&own), own);
    assert!(!created);
    assert_eq!(held.wgpu_context.unwrap().id, 4);
}
