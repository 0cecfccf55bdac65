//! The compute-filter stages: dispatch geometry, the staging paths, and the
//! negotiation-symmetry scenario on the copy stage.

use deka_gst_wgpu::buffer_memory::{MapEvent, WgpuMemory, WgpuMemoryAllocator};
use deka_gst_wgpu::caps::{caps_contains, CapsStructure, CapsUsage, MediaType, MemoryFeature};
use deka_gst_wgpu::compute::workgroups_for;
use deka_gst_wgpu::context::{DeviceLimits, PollType, WgpuContext};
use deka_gst_wgpu::errors::PipelineError;
use deka_gst_wgpu::negotiate::{Memory, PadDirection};
use deka_gst_wgpu::stages::sobel_buf::WgpuSobelBuf;
use deka_gst_wgpu::stages::sobel_mem::WgpuSobelMem;
use deka_gst_wgpu::stages::texture_copy::WgpuTextureCopy;
use deka_gst_wgpu::usages::{BufferUsages, TextureUsages};

fn ctx(id: u64) -> WgpuContext {
    WgpuContext::new(
        id,
        true,
        true,
        DeviceLimits { max_texture_dimension_2d: 8192 },
        PollType::Threaded,
    )
    .unwrap()
}

fn bmask(map_read: bool, map_write: bool, copy_src: bool, copy_dst: bool) -> BufferUsages {
    BufferUsages { map_read, map_write, copy_src, copy_dst }
}

fn gpu_buffer(context: WgpuContext, usages: BufferUsages, size: usize) -> WgpuMemory {
    WgpuMemoryAllocator::new_with_explicit_usage(context, usages)
        .allocate(size, None, true)
        .unwrap()
}

#[test]
fn workgroup_counts_round_up() {
    assert_eq!(workgroups_for(64), 8);
    assert_eq!(workgroups_for(65), 9);
    assert_eq!(workgroups_for(1), 1);
    assert_eq!(workgroups_for(8), 1);
    assert_eq!(workgroups_for(9), 2);
}

#[test]
fn sixty_four_square_dispatches_eight_by_eight_workgroups() {
    // The compute filter fixed to a 64×64 input and output must dispatch
    // exactly ceil(64/8) = 8 work-groups per axis.
    let context = ctx(1);
    let mut stage = WgpuSobelBuf::new();
    stage.set_wgpu_context(context);
    stage.set_info(64, 64, 64, 64).unwrap();

    let size = 64 * 64 * 4;
    let input = Memory::WgpuBuffer(gpu_buffer(context, bmask(false, true, true, false), size));
    let mut output = Memory::WgpuBuffer(gpu_buffer(context, bmask(true, false, false, true), size));
    let program_output: Vec<u8> = (0..size).map(|i| (i % 89) as u8).collect();
    let plan = stage.transform(&input, &mut output, &program_output).unwrap();
    assert_eq!(plan.workgroups_x, 8);
    assert_eq!(plan.workgroups_y, 8);
    assert_eq!(plan.workgroups_z, 1);
    // The result feeds the next stage on the same queue: no blocking wait.
    assert!(!plan.wait_for_host);
    // The output buffer received exactly what the program wrote.
    match output {
        Memory::WgpuBuffer(mut b) => {
            let events = vec![MapEvent::Ready];
            b.map_read(size, &events, 4).unwrap();
            assert_eq!(b.read_mapped(), program_output);
        }
        _ => panic!("the transform left a GPU buffer"),
    }
}

#[test]
fn sobel_transform_gates_on_kind_capability_and_intermediates() {
    let context = ctx(1);
    let mut stage = WgpuSobelBuf::new();
    stage.set_wgpu_context(context);

    let size = 16 * 16 * 4;
    let input = Memory::WgpuBuffer(gpu_buffer(context, bmask(false, true, true, false), size));
    let mut output = Memory::WgpuBuffer(gpu_buffer(context, bmask(true, false, false, true), size));
    let program_output = vec![5u8; size];

    // Before the shape fix there are no intermediates.
    assert_eq!(
        stage.transform(&input, &mut output, &program_output).unwrap_err(),
        PipelineError::NotNegotiated
    );

    stage.set_info(16, 16, 16, 16).unwrap();
    // Host memory has no place on this stage's copy path.
    assert_eq!(
        stage
            .transform(&Memory::System(vec![0; size]), &mut output, &program_output)
            .unwrap_err(),
        PipelineError::NotNegotiated
    );
    // A buffer the stage cannot copy from is refused.
    let no_src = Memory::WgpuBuffer(gpu_buffer(context, bmask(false, true, false, false), size));
    assert_eq!(
        stage.transform(&no_src, &mut output, &program_output).unwrap_err(),
        PipelineError::NotNegotiated
    );
    // A program result that does not cover the staged extent is refused.
    assert_eq!(
        stage.transform(&input, &mut output, &vec![5u8; 16]).unwrap_err(),
        PipelineError::NotNegotiated
    );
    // The staged path itself works.
    assert!(stage.transform(&input, &mut output, &program_output).is_ok());
}

#[test]
fn sobel_set_caps_fixes_copy_bits_on_both_sides() {
    let mut stage = WgpuSobelBuf::new();
    let mut incaps = CapsStructure {
        media: MediaType::Video,
        width: 16,
        height: 16,
        feature: MemoryFeature::WgpuBuffer,
        usage: CapsUsage::Buffer(bmask(false, true, true, false)),
    };
    let mut outcaps = incaps;
    outcaps.usage = CapsUsage::Buffer(bmask(true, false, false, true));
    stage.set_caps(&vec![incaps], &vec![outcaps]).unwrap();
    assert_eq!(stage.sink_usages, Some(bmask(false, true, true, false)));
    assert_eq!(stage.src_usages, Some(bmask(true, false, false, true)));

    // An input the stage cannot copy from fails the commit.
    incaps.usage = CapsUsage::Buffer(bmask(false, true, false, false));
    assert_eq!(
        stage.set_caps(&vec![incaps], &vec![outcaps]).unwrap_err(),
        PipelineError::CapabilityMissing
    );
}

#[test]
fn host_frame_staging_path_runs_and_remaps_its_input() {
    let context = ctx(1);
    let events = vec![MapEvent::Ready];
    let mut stage = WgpuSobelMem::new();
    stage.set_wgpu_context(context);
    stage.set_info(16, 16, 16, 16).unwrap();

    let size = 16 * 16 * 4;
    let inframe: Vec<u8> = (0..size).map(|i| (i % 255) as u8).collect();
    let mut outframe = vec![0u8; size];
    let program_output: Vec<u8> = (0..size).map(|i| (i % 97) as u8).collect();
    let plan = stage
        .transform_frame(&inframe, &mut outframe, &program_output, &events, 4)
        .unwrap();
    assert_eq!(plan.workgroups_x, 2);
    assert_eq!(plan.workgroups_y, 2);
    // The host needs the result: this path blocks for the readback.
    assert!(plan.wait_for_host);
    // The frame carries exactly the program's result, read back through the
    // output staging buffer.
    assert_eq!(outframe, program_output);

    // The input buffer came back mapped for the next frame: a second frame
    // goes straight through.
    assert!(stage
        .transform_frame(&inframe, &mut outframe, &program_output, &events, 4)
        .is_ok());
}

#[test]
fn host_frame_staging_path_rejects_mismatched_frame_sizes() {
    let context = ctx(1);
    let events = vec![MapEvent::Ready];
    let mut stage = WgpuSobelMem::new();
    stage.set_wgpu_context(context);
    stage.set_info(16, 16, 16, 16).unwrap();

    let mut outframe = vec![0u8; 16 * 16 * 4];
    let program_output = vec![0u8; 16 * 16 * 4];
    let short = vec![0u8; 16];
    assert_eq!(
        stage
            .transform_frame(&short, &mut outframe, &program_output, &events, 4)
            .unwrap_err(),
        PipelineError::NotNegotiated
    );
}

#[test]
fn gpu_memory_skips_the_staging_input_buffer() {
    let context = ctx(1);
    let events = vec![MapEvent::Ready];
    let mut stage = WgpuSobelMem::new();
    stage.set_wgpu_context(context);
    stage.set_info(16, 16, 16, 16).unwrap();

    let size = 16 * 16 * 4;
    let gpu = Memory::WgpuBuffer(gpu_buffer(context, bmask(false, true, true, false), size));
    let mut outframe = vec![0u8; size];
    let program_output: Vec<u8> = (0..size).map(|i| (i % 101) as u8).collect();
    let plan = stage
        .transform(&gpu, &mut outframe, &program_output, &events, 4)
        .unwrap();
    assert_eq!((plan.workgroups_x, plan.workgroups_y), (2, 2));
    assert!(plan.wait_for_host);
    assert_eq!(outframe, program_output);
}

#[test]
fn copy_stage_negotiation_round_trip_reproduces_a_compatible_descriptor() {
    // Rewrite a descriptor for one side of the copy stage, hand each offer
    // to the neighbouring stage, and rewrite it back: the result must hold a
    // descriptor with the original media and shape whose mask still covers
    // the copy stage's requirements.
    let stage = WgpuTextureCopy::new();
    let d = CapsStructure {
        media: MediaType::Video,
        width: 320,
        height: 240,
        feature: MemoryFeature::WgpuTexture,
        usage: CapsUsage::Texture(TextureUsages {
            copy_src: true,
            copy_dst: true,
            texture_binding: false,
            storage_binding: false,
        }),
    };
    let offer = stage.transform_caps(PadDirection::Sink, &vec![d], None);
    assert!(!offer.is_empty());
    for e in &offer {
        let back = stage.transform_caps(PadDirection::Src, &vec![*e], None);
        let compatible = CapsStructure {
            media: d.media,
            width: d.width,
            height: d.height,
            feature: MemoryFeature::WgpuTexture,
            usage: CapsUsage::Texture(TextureUsages {
                copy_src: true,
                copy_dst: true,
                texture_binding: false,
                storage_binding: false,
            }),
        };
        assert!(caps_contains(&back, &compatible));
    }
}

#[test]
fn host_frame_readback_timeout_parks_the_stage() {
    // A manual-mode context whose completion never arrives: the readback
    // wait exhausts its bound, the frame is not written, and the staging
    // input buffer is left unmapped, so the next frame is refused until the
    // shape is fixed again.
    let context = WgpuContext::new(
        2,
        true,
        true,
        DeviceLimits { max_texture_dimension_2d: 8192 },
        PollType::Manual,
    )
    .unwrap();
    let mut stage = WgpuSobelMem::new();
    stage.set_wgpu_context(context);
    stage.set_info(16, 16, 16, 16).unwrap();

    let size = 16 * 16 * 4;
    let inframe = vec![7u8; size];
    let mut outframe = vec![1u8; size];
    let program_output = vec![9u8; size];
    let stalled = vec![MapEvent::Empty, MapEvent::Empty];
    assert_eq!(
        stage
            .transform_frame(&inframe, &mut outframe, &program_output, &stalled, 2)
            .unwrap_err(),
        PipelineError::MapTimeout
    );
    assert_eq!(outframe, vec![1u8; size]);

    let ready = vec![MapEvent::Ready];
    assert_eq!(
        stage
            .transform_frame(&inframe, &mut outframe, &program_output, &ready, 2)
            .unwrap_err(),
        PipelineError::NotNegotiated
    );
    // Fixing the shape again restores the staging resources.
    stage.set_info(16, 16, 16, 16).unwrap();
    assert!(stage
        .transform_frame(&inframe, &mut outframe, &program_output, &ready, 2)
        .is_ok());
    assert_eq!(outframe, program_output);
}
