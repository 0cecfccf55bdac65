//! The map/unmap protocol and the allocator, on concrete buffers.

use deka_gst_wgpu::buffer_memory::{
    copy_buffer_to_buffer, AllocationParams, MapEvent, MapMode, ReleaseStep, WgpuMemory,
    WgpuMemoryAllocator,
};
use deka_gst_wgpu::context::{DeviceLimits, PollType, WgpuContext};
use deka_gst_wgpu::errors::PipelineError;
use deka_gst_wgpu::usages::BufferUsages;

fn ctx(poll_type: PollType) -> WgpuContext {
    WgpuContext::new(7, true, true, DeviceLimits { max_texture_dimension_2d: 8192 }, poll_type)
        .unwrap()
}

fn mask(map_read: bool, map_write: bool, copy_src: bool, copy_dst: bool) -> BufferUsages {
    BufferUsages { map_read, map_write, copy_src, copy_dst }
}

fn make_buffer(context: WgpuContext, usages: BufferUsages, size: usize) -> WgpuMemory {
    WgpuMemoryAllocator::new_with_explicit_usage(context, usages)
        .allocate(size, None, true)
        .unwrap()
}

#[test]
fn fresh_allocation_is_zeroed_and_unmapped() {
    let m = make_buffer(ctx(PollType::Threaded), mask(true, false, false, true), 16);
    assert_eq!(m.size(), 16);
    assert!(!m.is_mapped());
    assert_eq!(m.usage(), mask(true, false, false, true));
}

#[test]
fn derived_mask_for_writable_request() {
    let allocator = WgpuMemoryAllocator::new(ctx(PollType::Threaded));
    let m = allocator
        .allocate(8, Some(&AllocationParams { readonly: false }), true)
        .unwrap();
    assert_eq!(m.usage(), mask(false, true, true, false));
}

#[test]
fn derived_mask_for_readonly_request() {
    let allocator = WgpuMemoryAllocator::new(ctx(PollType::Threaded));
    let m = allocator
        .allocate(8, Some(&AllocationParams { readonly: true }), true)
        .unwrap();
    assert_eq!(m.usage(), mask(true, false, false, true));
}

#[test]
fn allocation_failed_when_device_refuses() {
    let allocator = WgpuMemoryAllocator::new(ctx(PollType::Threaded));
    let r = allocator.allocate(8, None, false);
    assert_eq!(r.unwrap_err(), PipelineError::AllocationFailed);
}

#[test]
fn map_write_without_write_bit_fails_capability_missing() {
    // An object allocated with {read-map, copy-destination} has no write-map
    // bit, so mapping it for writes must be refused.
    let mut m = make_buffer(ctx(PollType::Threaded), mask(true, false, false, true), 8);
    let events = vec![MapEvent::Ready];
    let r = m.map_write(8, &events, 4);
    assert_eq!(r.unwrap_err(), PipelineError::CapabilityMissing);
    assert!(!m.is_mapped());
}

#[test]
fn map_read_succeeds_exactly_when_a_host_map_bit_is_present() {
    let events = vec![MapEvent::Ready];
    let mut readable = make_buffer(ctx(PollType::Threaded), mask(true, false, false, true), 8);
    assert_eq!(readable.map_read(8, &events, 4).unwrap(), MapMode::Read);

    let mut neither = make_buffer(ctx(PollType::Threaded), mask(false, false, true, true), 8);
    assert_eq!(
        neither.map_read(8, &events, 4).unwrap_err(),
        PipelineError::CapabilityMissing
    );
}

#[test]
fn read_map_falls_back_to_write_view_on_write_only_buffer() {
    // The documented escape for the download path: a read-map request
    // against a write-map-only buffer returns the write-mapped view.
    let events = vec![MapEvent::Ready];
    let mut m = make_buffer(ctx(PollType::Threaded), mask(false, true, true, false), 8);
    assert_eq!(m.map_read(8, &events, 4).unwrap(), MapMode::Write);
}

#[test]
fn second_map_fails_already_mapped() {
    let events = vec![MapEvent::Ready];
    let mut m = make_buffer(ctx(PollType::Threaded), mask(true, false, false, true), 8);
    m.map_read(8, &events, 4).unwrap();
    let r = m.map_read(8, &events, 4);
    assert_eq!(r.unwrap_err(), PipelineError::AlreadyMapped);
    // The first view is still the live one.
    assert!(m.is_mapped());
}

#[test]
fn unmap_twice_is_a_noop() {
    let events = vec![MapEvent::Ready];
    let mut m = make_buffer(ctx(PollType::Threaded), mask(true, false, false, true), 8);
    m.map_read(8, &events, 4).unwrap();
    assert!(m.unmap().is_some());
    assert!(!m.is_mapped());
    assert!(m.unmap().is_none());
    assert!(!m.is_mapped());
}

#[test]
fn manual_map_times_out_when_no_completion_arrives() {
    let mut m = make_buffer(ctx(PollType::Manual), mask(true, false, false, true), 8);
    let events = vec![MapEvent::Empty, MapEvent::Empty, MapEvent::Empty];
    let r = m.map_read(8, &events, 3);
    assert_eq!(r.unwrap_err(), PipelineError::MapTimeout);
    assert!(!m.is_mapped());
}

#[test]
fn manual_map_completes_within_the_bound() {
    let mut m = make_buffer(ctx(PollType::Manual), mask(true, false, false, true), 8);
    let events = vec![MapEvent::Empty, MapEvent::Empty, MapEvent::Ready];
    assert_eq!(m.map_read(8, &events, 4).unwrap(), MapMode::Read);
}

#[test]
fn manual_map_times_out_when_completion_is_beyond_the_bound() {
    let mut m = make_buffer(ctx(PollType::Manual), mask(true, false, false, true), 8);
    let events = vec![MapEvent::Empty, MapEvent::Empty, MapEvent::Ready];
    let r = m.map_read(8, &events, 2);
    assert_eq!(r.unwrap_err(), PipelineError::MapTimeout);
}

#[test]
fn write_and_read_through_views() {
    let events = vec![MapEvent::Ready];
    let mut m = make_buffer(ctx(PollType::Threaded), mask(false, true, true, false), 4);
    m.map_write(4, &events, 4).unwrap();
    m.write_mapped(&vec![9, 8, 7, 6]);
    m.unmap();
    // Reading back goes through the documented write-view fallback.
    m.map_read(4, &events, 4).unwrap();
    assert_eq!(m.read_mapped(), vec![9, 8, 7, 6]);
    m.unmap();
}

#[test]
fn buffer_copy_moves_the_minimum_of_both_sizes() {
    // A 100-byte source into a 50-byte destination copies exactly 50 bytes.
    let context = ctx(PollType::Threaded);
    let events = vec![MapEvent::Ready];
    let mut src = make_buffer(context, mask(false, true, true, false), 100);
    src.map_write(100, &events, 4).unwrap();
    let payload: Vec<u8> = (0..100u8).collect();
    src.write_mapped(&payload);
    src.unmap();

    let mut dst = make_buffer(context, mask(true, false, false, true), 50);
    copy_buffer_to_buffer(&src, &mut dst);
    dst.map_read(50, &events, 4).unwrap();
    let copied = dst.read_mapped();
    assert_eq!(copied.len(), 50);
    assert_eq!(copied, (0..50u8).collect::<Vec<u8>>());
}

#[test]
fn free_releases_device_resource_first_and_context_last() {
    let context = ctx(PollType::Threaded);
    let allocator = WgpuMemoryAllocator::new(context);
    let m = allocator.allocate(8, None, true).unwrap();
    let steps = allocator.free(m);
    assert_eq!(
        steps,
        vec![
            ReleaseStep::DeviceResource,
            ReleaseStep::HostRecord,
            ReleaseStep::ContextReference,
        ]
    );
}
