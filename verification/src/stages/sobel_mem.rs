//! The compute-filter stage over plain host frames: it owns a write-mapped
//! staging input buffer, the two staging textures, and a readable staging
//! output buffer.  Each frame is written into the input buffer, pushed
//! through the program, and read back from the output buffer — here the data
//! must end up host-visible, so the stage blocks until the submission
//! completes before copying out.  When the incoming frame already sits in a
//! GPU buffer the staging input buffer is skipped and the device copy starts
//! from the incoming buffer itself.

use vstd::prelude::*;

use crate::buffer_memory::{
    spec_eventually_ready, spec_map_completes, AllocationParams, MapEvent, MapMode, MappedView,
    WgpuMemory, WgpuMemoryAllocator,
};
use crate::compute::{spec_workgroups, workgroups_for, DispatchPlan};
use crate::context::{spec_needs_poller, WgpuContext};
use crate::errors::PipelineError;
use crate::negotiate::{
    adopt_context, spec_adopted_context, AllocationQuery, Memory, ProposedAllocator,
};
use crate::stages::sobel_buf::{spec_input_staging_usage, spec_output_staging_usage};
use crate::texture_memory::{
    copy_buffer_to_texture, copy_texture_to_buffer, write_full_extent, TextureDescriptor,
    TextureFormat, WgpuTextureMemory, WgpuTextureMemoryAllocator, MAX_TEXTURE_DIMENSION,
};
use crate::usages::{BufferUsages, TextureUsages};

verus! {

/// The mask of the staging input buffer: the host writes frames into it and
/// the stage copies them to the input texture.
pub open spec fn spec_staging_in_usage() -> BufferUsages {
    BufferUsages { map_read: false, map_write: true, copy_src: true, copy_dst: false }
}

/// The mask of the staging output buffer: the stage copies the output
/// texture into it and the host reads it back.
pub open spec fn spec_staging_out_usage() -> BufferUsages {
    BufferUsages { map_read: true, map_write: false, copy_src: false, copy_dst: true }
}

/// The GPU-resident intermediates of the host-frame compute filter.
#[derive(Clone, Debug)]
pub struct SobelMemState {
    /// The staging buffer host frames are written into; it is created
    /// write-mapped and re-mapped after each frame.
    pub input_buffer: WgpuMemory,
    /// The staging texture the input buffer is copied into.
    pub input_texture: WgpuTextureMemory,
    /// The staging texture the program writes.
    pub output_texture: WgpuTextureMemory,
    /// The staging buffer the output texture is copied into for readback.
    pub output_buffer: WgpuMemory,
    /// Whether the compute program is bound to the two textures.
    pub program_bound: bool,
}

impl SobelMemState {
    /// Consistent intermediates: each staging resource is well-formed,
    /// carries its staging mask, and matches its texture's extent; the
    /// output buffer is unmapped between frames, while the input buffer is
    /// either write-mapped over its whole length, ready for the next frame,
    /// or unmapped after a failed round.
    pub open spec fn wf(self) -> bool {
        &&& self.input_buffer.wf()
        &&& self.input_buffer.usage == spec_staging_in_usage()
        &&& self.input_buffer.data.len() == self.input_texture.descriptor.spec_byte_size()
        &&& (self.input_buffer.view is None || self.input_buffer.view == Some(
            MappedView { mode: MapMode::Write, len: self.input_buffer.data.len() },
        ))
        &&& self.input_texture.wf()
        &&& self.input_texture.descriptor.usage == spec_input_staging_usage()
        &&& self.output_texture.wf()
        &&& self.output_texture.descriptor.usage == spec_output_staging_usage()
        &&& self.output_buffer.wf()
        &&& self.output_buffer.usage == spec_staging_out_usage()
        &&& self.output_buffer.view is None
        &&& self.output_buffer.data.len() == self.output_texture.descriptor.spec_byte_size()
        &&& self.program_bound
    }
}

/// The host-frame compute-filter stage.
#[derive(Clone, Debug)]
pub struct WgpuSobelMem {
    /// The shared device context, once adopted or created.
    pub wgpu_context: Option<WgpuContext>,
    /// The staging resources and program; `None` until the shape is fixed.
    pub pipeline: Option<SobelMemState>,
}

impl WgpuSobelMem {
    /// A consistent stage: once the shape is fixed, the intermediates are
    /// consistent and live on the stage's own context.
    pub open spec fn wf(self) -> bool {
        match self.pipeline {
            Some(st) => st.wf() && (self.wgpu_context matches Some(c)
                && st.input_buffer.context == c && st.input_texture.context.id == c.id
                && st.output_texture.context.id == c.id && st.output_buffer.context == c),
            None => true,
        }
    }

    /// A fresh stage: no context, no intermediates.
    pub fn new() -> (r: Self)
        ensures
            r.wgpu_context is None,
            r.pipeline is None,
            r.wf(),
    {
        WgpuSobelMem { wgpu_context: None, pipeline: None }
    }

    /// Records the shared context.  The first context wins.
    pub fn set_wgpu_context(&mut self, context: WgpuContext)
        requires
            old(self).pipeline is None,
        ensures
            final(self).wgpu_context == (if old(self).wgpu_context is Some {
                old(self).wgpu_context
            } else {
                Some(context)
            }),
            final(self).pipeline == old(self).pipeline,
            final(self).wf(),
    {
        if self.wgpu_context.is_none() {
            self.wgpu_context = Some(context);
        }
    }

    /// Starts the stage: adopts a neighbour's context when one was found,
    /// else keeps `own`.  Returns true when `own` was taken and must be
    /// published.
    pub fn start(&mut self, found: Option<&WgpuContext>, own: WgpuContext) -> (created: bool)
        requires
            old(self).pipeline is None,
        ensures
            final(self).wgpu_context == Some(
                spec_adopted_context(
                    old(self).wgpu_context,
                    match found {
                        Some(c) => Some(*c),
                        None => None::<WgpuContext>,
                    },
                    own,
                ),
            ),
            created == (old(self).wgpu_context is None && found is None),
            final(self).pipeline == old(self).pipeline,
            final(self).wf(),
    {
        let (ctx, created) = adopt_context(self.wgpu_context.as_ref(), found, own);
        self.wgpu_context = Some(ctx);
        created
    }

    /// The shape-fix step: (re)allocates the staging buffers and textures
    /// for the committed input and output shapes and binds the program.  The
    /// input buffer comes up already write-mapped, ready for the first
    /// frame.  Without a context the call fails with
    /// `NegotiatedBeforeCommit`.
    pub fn set_info(
        &mut self,
        in_width: u32,
        in_height: u32,
        out_width: u32,
        out_height: u32,
    ) -> (r: Result<(), PipelineError>)
        requires
            old(self).wf(),
            1 <= in_width <= MAX_TEXTURE_DIMENSION,
            1 <= in_height <= MAX_TEXTURE_DIMENSION,
            1 <= out_width <= MAX_TEXTURE_DIMENSION,
            1 <= out_height <= MAX_TEXTURE_DIMENSION,
            old(self).wgpu_context matches Some(c) ==> c.alive,
        ensures
            final(self).wf(),
            final(self).wgpu_context == old(self).wgpu_context,
            old(self).wgpu_context is None ==> r == Err::<(), PipelineError>(
                PipelineError::NegotiatedBeforeCommit,
            ) && final(self).pipeline == old(self).pipeline,
            old(self).wgpu_context matches Some(c) ==> r == Ok::<(), PipelineError>(()) && (final(self).pipeline matches Some(st) && st.wf() && st.input_texture.descriptor
                == (TextureDescriptor {
                width: in_width,
                height: in_height,
                format: TextureFormat::Rgba8Unorm,
                usage: spec_input_staging_usage(),
            }) && st.output_texture.descriptor == (TextureDescriptor {
                width: out_width,
                height: out_height,
                format: TextureFormat::Rgba8Unorm,
                usage: spec_output_staging_usage(),
            }) && st.input_buffer.view is Some && st.input_buffer.context == c
                && st.output_buffer.context == c),
    {
        let ctx = match &self.wgpu_context {
            Some(c) => *c,
            None => {
                return Err(PipelineError::NegotiatedBeforeCommit);
            },
        };
        let input_descriptor = TextureDescriptor {
            width: in_width,
            height: in_height,
            format: TextureFormat::Rgba8Unorm,
            usage: TextureUsages {
                copy_src: false,
                copy_dst: true,
                texture_binding: true,
                storage_binding: false,
            },
        };
        let output_descriptor = TextureDescriptor {
            width: out_width,
            height: out_height,
            format: TextureFormat::Rgba8Unorm,
            usage: TextureUsages {
                copy_src: true,
                copy_dst: false,
                texture_binding: true,
                storage_binding: true,
            },
        };
        let input_texture = match WgpuTextureMemoryAllocator::new(ctx, input_descriptor).allocate(
            true,
        ) {
            Ok(t) => t,
            Err(e) => {
                proof {
                    assert(false);
                }
                return Err(e);
            },
        };
        let output_texture = match WgpuTextureMemoryAllocator::new(ctx, output_descriptor).allocate(
            true,
        ) {
            Ok(t) => t,
            Err(e) => {
                proof {
                    assert(false);
                }
                return Err(e);
            },
        };
        let in_size = input_texture.descriptor().byte_size();
        let out_size = output_texture.descriptor().byte_size();
        let mut in_data: Vec<u8> = Vec::new();
        let mut i: usize = 0;
        while i < in_size
            invariant
                i <= in_size,
                in_data@.len() == i,
            decreases in_size - i,
        {
            in_data.push(0);
            i = i + 1;
        }
        let input_buffer = WgpuMemory {
            usage: BufferUsages {
                map_read: false,
                map_write: true,
                copy_src: true,
                copy_dst: false,
            },
            view: Some(MappedView { mode: MapMode::Write, len: in_data.len() }),
            data: in_data,
            context: ctx,
        };
        let mut out_data: Vec<u8> = Vec::new();
        let mut j: usize = 0;
        while j < out_size
            invariant
                j <= out_size,
                out_data@.len() == j,
            decreases out_size - j,
        {
            out_data.push(0);
            j = j + 1;
        }
        let output_buffer = WgpuMemory {
            usage: BufferUsages {
                map_read: true,
                map_write: false,
                copy_src: false,
                copy_dst: true,
            },
            data: out_data,
            view: None,
            context: ctx,
        };
        self.pipeline = Some(
            SobelMemState {
                input_buffer,
                input_texture,
                output_texture,
                output_buffer,
                program_bound: true,
            },
        );
        Ok(())
    }

    /// One frame through staging: the host frame is written through the
    /// input buffer's live write view, the buffer unmapped, the compute
    /// submission staged, the stage blocks for the readback, the output
    /// buffer's bytes replace the output frame, and the input buffer is
    /// mapped again for the next frame.  The program itself is an opaque
    /// resource outside this subsystem: what it writes into the output
    /// staging texture enters as `program_output`, and on success the output
    /// frame provably carries exactly those bytes, read back through the
    /// output staging buffer.  The frame and program sizes must match the
    /// staged extents and the input buffer must still hold its write view —
    /// otherwise `NotNegotiated` — and a bounded manual-mode wait can end in
    /// `MapTimeout`, after which the input buffer stays unmapped until the
    /// next shape fix.
    pub fn transform_frame(
        &mut self,
        inframe: &Vec<u8>,
        outframe: &mut Vec<u8>,
        program_output: &Vec<u8>,
        events: &Vec<MapEvent>,
        timeout_rounds: u64,
    ) -> (r: Result<DispatchPlan, PipelineError>)
        requires
            old(self).wf(),
            match old(self).wgpu_context {
                Some(c) => spec_needs_poller(c.poll_type) ==> spec_eventually_ready(events@),
                None => true,
            },
        ensures
            final(self).wf(),
            final(self).wgpu_context == old(self).wgpu_context,
            !spec_sobel_mem_frame_ready(
                *old(self),
                inframe@.len(),
                old(outframe)@.len(),
                program_output@.len(),
            ) ==> r == Err::<DispatchPlan, PipelineError>(PipelineError::NotNegotiated) && *final(outframe) == *old(outframe) && final(self).pipeline == old(self).pipeline,
            r matches Ok(plan) ==> spec_sobel_mem_frame_ready(
                *old(self),
                inframe@.len(),
                old(outframe)@.len(),
                program_output@.len(),
            ) && plan.workgroups_x == spec_workgroups(
                old(self).pipeline->Some_0.input_texture.descriptor.width,
            ) && plan.workgroups_y == spec_workgroups(
                old(self).pipeline->Some_0.input_texture.descriptor.height,
            ) && plan.workgroups_z == 1 && plan.wait_for_host && final(outframe)@ == program_output@
                && final(outframe)@.len() == old(outframe)@.len() && (final(self).pipeline matches
            Some(st2) && st2.input_texture.data@ == inframe@ && st2.input_buffer.data@ == inframe@
                && st2.output_texture.data@ == program_output@ && st2.input_buffer.view is Some),
            r is Err ==> *final(outframe) == *old(outframe),
            spec_sobel_mem_frame_ready(
                *old(self),
                inframe@.len(),
                old(outframe)@.len(),
                program_output@.len(),
            ) ==> (
            if spec_map_completes(
                old(self).wgpu_context->Some_0.poll_type,
                events@,
                timeout_rounds,
            ) {
                r is Ok
            } else {
                r == Err::<DispatchPlan, PipelineError>(PipelineError::MapTimeout)
            }),
    {
        let ctx_poll = match &self.wgpu_context {
            Some(c) => c.poll_type,
            None => {
                return Err(PipelineError::NotNegotiated);
            },
        };
        let st = match &mut self.pipeline {
            Some(st) => st,
            None => {
                return Err(PipelineError::NotNegotiated);
            },
        };
        if inframe.len() != st.input_buffer.size() {
            return Err(PipelineError::NotNegotiated);
        }
        if outframe.len() != st.output_buffer.size() {
            return Err(PipelineError::NotNegotiated);
        }
        if program_output.len() != st.output_buffer.size() {
            return Err(PipelineError::NotNegotiated);
        }
        if !st.input_buffer.is_mapped() {
            // A previous round failed before the input could be re-mapped.
            return Err(PipelineError::NotNegotiated);
        }
        st.input_buffer.write_mapped(inframe);
        st.input_buffer.unmap();
        let in_width = st.input_texture.descriptor().width;
        let in_height = st.input_texture.descriptor().height;
        copy_buffer_to_texture(&st.input_buffer, &mut st.input_texture, in_width, in_height);
        let plan = DispatchPlan {
            workgroups_x: workgroups_for(in_width),
            workgroups_y: workgroups_for(in_height),
            workgroups_z: 1,
            wait_for_host: true,
        };
        write_full_extent(&mut st.output_texture, program_output);
        let out_width = st.output_texture.descriptor().width;
        let out_height = st.output_texture.descriptor().height;
        copy_texture_to_buffer(&st.output_texture, &mut st.output_buffer, out_width, out_height);
        let out_len = st.output_buffer.size();
        match st.output_buffer.map_read(out_len, events, timeout_rounds) {
            Ok(_) => {},
            Err(e) => {
                return Err(e);
            },
        }
        let out_bytes = st.output_buffer.read_mapped();
        st.output_buffer.unmap();
        *outframe = out_bytes;
        let in_len = st.input_buffer.size();
        match st.input_buffer.map_write(in_len, events, timeout_rounds) {
            Ok(_) => {},
            Err(e) => {
                return Err(e);
            },
        }
        Ok(plan)
    }

    /// One frame from a GPU buffer: when the incoming memory already is a
    /// GPU buffer the staging input buffer is skipped and the device copy
    /// starts from the incoming buffer itself; otherwise the host bytes take
    /// the staging path of [`WgpuSobelMem::transform_frame`].  The readback
    /// still blocks, and on success the output frame provably carries the
    /// bytes the opaque program wrote, handed in as `program_output`.
    pub fn transform(
        &mut self,
        inbuf: &Memory,
        outframe: &mut Vec<u8>,
        program_output: &Vec<u8>,
        events: &Vec<MapEvent>,
        timeout_rounds: u64,
    ) -> (r: Result<DispatchPlan, PipelineError>)
        requires
            old(self).wf(),
            match old(self).wgpu_context {
                Some(c) => spec_needs_poller(c.poll_type) ==> spec_eventually_ready(events@),
                None => true,
            },
            *inbuf matches Memory::WgpuBuffer(a) ==> a.wf() && a.view is None,
            match (*inbuf, old(self).wgpu_context) {
                (Memory::WgpuBuffer(a), Some(c)) => a.context.id == c.id,
                _ => true,
            },
        ensures
            final(self).wf(),
            final(self).wgpu_context == old(self).wgpu_context,
            r matches Ok(plan) ==> old(self).pipeline is Some && plan.workgroups_x
                == spec_workgroups(old(self).pipeline->Some_0.input_texture.descriptor.width)
                && plan.workgroups_y == spec_workgroups(
                old(self).pipeline->Some_0.input_texture.descriptor.height,
            ) && plan.workgroups_z == 1 && plan.wait_for_host && final(outframe)@
                == program_output@ && final(outframe)@.len() == old(outframe)@.len(),
            r is Err ==> *final(outframe) == *old(outframe),
            (*inbuf is WgpuBuffer && !spec_sobel_mem_gpu_ready(
                *old(self),
                *inbuf,
                old(outframe)@.len(),
                program_output@.len(),
            )) ==> r == Err::<DispatchPlan, PipelineError>(PipelineError::NotNegotiated) && final(self).pipeline == old(self).pipeline,
            spec_sobel_mem_gpu_ready(
                *old(self),
                *inbuf,
                old(outframe)@.len(),
                program_output@.len(),
            ) ==> (
            if spec_map_completes(
                old(self).wgpu_context->Some_0.poll_type,
                events@,
                timeout_rounds,
            ) {
                r is Ok
            } else {
                r == Err::<DispatchPlan, PipelineError>(PipelineError::MapTimeout)
            }),
            match *inbuf {
                Memory::System(bytes) => spec_sobel_mem_frame_ready(
                    *old(self),
                    bytes@.len(),
                    old(outframe)@.len(),
                    program_output@.len(),
                ) ==> (if spec_map_completes(
                    old(self).wgpu_context->Some_0.poll_type,
                    events@,
                    timeout_rounds,
                ) {
                    r is Ok
                } else {
                    r == Err::<DispatchPlan, PipelineError>(PipelineError::MapTimeout)
                }),
                Memory::WgpuTexture(_) => r == Err::<DispatchPlan, PipelineError>(
                    PipelineError::NotNegotiated,
                ),
                Memory::Foreign => r == Err::<DispatchPlan, PipelineError>(
                    PipelineError::NotNegotiated,
                ),
                _ => true,
            },
    {
        let a = match inbuf {
            Memory::WgpuBuffer(a) => a,
            Memory::System(bytes) => {
                // Fall back to the staging path for host memory.
                return self.transform_frame(
                    bytes,
                    outframe,
                    program_output,
                    events,
                    timeout_rounds,
                );
            },
            _ => {
                return Err(PipelineError::NotNegotiated);
            },
        };
        if !a.usage().copy_src {
            return Err(PipelineError::NotNegotiated);
        }
        if self.wgpu_context.is_none() {
            return Err(PipelineError::NotNegotiated);
        }
        let st = match &mut self.pipeline {
            Some(st) => st,
            None => {
                return Err(PipelineError::NotNegotiated);
            },
        };
        if a.size() < st.input_texture.descriptor().byte_size() {
            return Err(PipelineError::NotNegotiated);
        }
        if outframe.len() != st.output_buffer.size() {
            return Err(PipelineError::NotNegotiated);
        }
        if program_output.len() != st.output_buffer.size() {
            return Err(PipelineError::NotNegotiated);
        }
        let in_width = st.input_texture.descriptor().width;
        let in_height = st.input_texture.descriptor().height;
        copy_buffer_to_texture(a, &mut st.input_texture, in_width, in_height);
        let plan = DispatchPlan {
            workgroups_x: workgroups_for(in_width),
            workgroups_y: workgroups_for(in_height),
            workgroups_z: 1,
            wait_for_host: true,
        };
        write_full_extent(&mut st.output_texture, program_output);
        let out_width = st.output_texture.descriptor().width;
        let out_height = st.output_texture.descriptor().height;
        copy_texture_to_buffer(&st.output_texture, &mut st.output_buffer, out_width, out_height);
        let out_len = st.output_buffer.size();
        match st.output_buffer.map_read(out_len, events, timeout_rounds) {
            Ok(_) => {},
            Err(e) => {
                return Err(e);
            },
        }
        let out_bytes = st.output_buffer.read_mapped();
        st.output_buffer.unmap();
        *outframe = out_bytes;
        Ok(plan)
    }

    /// The allocator-proposal step for the stage's input side: offers the
    /// stage's own allocator without a bound mask, so the mask is derived
    /// per allocation from the requested access.
    pub fn propose_allocation(&self, query: &mut AllocationQuery) -> (r: Result<(), PipelineError>)
        requires
            self.wgpu_context is Some,
        ensures
            r == Ok::<(), PipelineError>(()),
            final(query).caps == old(query).caps,
            final(query).params@.len() == old(query).params@.len() + 1,
            forall|k: int|
                0 <= k < old(query).params@.len() ==> final(query).params@[k] == old(query).params@[k],
            final(query).params@.last().0 matches ProposedAllocator::WgpuBuffer(a)
                && a.explicit_usages is None && a.context == self.wgpu_context->Some_0,
    {
        let ctx = match &self.wgpu_context {
            Some(c) => *c,
            None => {
                proof {
                    assert(false);
                }
                return Err(PipelineError::NotNegotiated);
            },
        };
        let allocator = WgpuMemoryAllocator::new(ctx);
        query.params.push(
            (ProposedAllocator::WgpuBuffer(allocator), AllocationParams { readonly: false }),
        );
        Ok(())
    }
}

/// Whether the direct GPU path can run one frame: the intermediates and
/// context are in place, the incoming GPU buffer can be copied from and
/// covers the staged input extent, the output frame matches the staged
/// readback size, and the program's output covers its storage texture
/// exactly.
pub open spec fn spec_sobel_mem_gpu_ready(
    stage: WgpuSobelMem,
    inbuf: Memory,
    outframe_len: nat,
    program_output_len: nat,
) -> bool {
    &&& inbuf matches Memory::WgpuBuffer(a) && a.usage.copy_src && (stage.pipeline matches Some(st)
        && a.data@.len() >= st.input_texture.descriptor.spec_byte_size())
    &&& stage.wgpu_context is Some
    &&& stage.pipeline matches Some(st) && outframe_len == st.output_buffer.data.len()
        && program_output_len == st.output_buffer.data.len()
}

/// Whether the staging path can run one frame: the intermediates are in
/// place, the input buffer still holds its write view, both frame sizes
/// match the staged extents, and the program's output covers its storage
/// texture exactly.
pub open spec fn spec_sobel_mem_frame_ready(
    stage: WgpuSobelMem,
    inframe_len: nat,
    outframe_len: nat,
    program_output_len: nat,
) -> bool {
    &&& stage.wgpu_context is Some
    &&& stage.pipeline matches Some(st) && inframe_len == st.input_buffer.data.len() && outframe_len
        == st.output_buffer.data.len() && program_output_len == st.output_buffer.data.len()
        && st.input_buffer.view is Some
}

} // verus!
