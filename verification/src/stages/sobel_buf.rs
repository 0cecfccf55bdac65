//! The compute-filter stage over GPU buffer memory: negotiation fixes a
//! copy-source input mask and a copy-destination output mask; fixing the
//! shape allocates two staging textures and binds the compute program to
//! them.  Each transform copies the input buffer into the input staging
//! texture, dispatches the program over the work-group grid covering the
//! image, and copies the output staging texture into the output buffer.  The
//! result only feeds the next stage's device-side work, so no blocking wait
//! is issued: completion is implicit in command ordering on the shared
//! queue.

use vstd::prelude::*;

use crate::buffer_memory::{spec_copy_into, AllocationParams, WgpuMemoryAllocator};
use crate::caps::{lemma_buffer_rewrite_contains, spec_in_buffer_rewrite, CapsStructure, CapsUsage};
use crate::compute::{spec_workgroups, workgroups_for, DispatchPlan};
use crate::context::WgpuContext;
use crate::errors::PipelineError;
use crate::negotiate::{
    adopt_context, spec_adopted_context, AllocationQuery, Memory, PadDirection, ProposedAllocator, spec_memory_wf,
};
use crate::texture_memory::{
    copy_buffer_to_texture, copy_texture_to_buffer, write_full_extent, TextureDescriptor,
    TextureFormat, WgpuTextureMemory, WgpuTextureMemoryAllocator, MAX_TEXTURE_DIMENSION,
};
use crate::usages::{BufferUsages, TextureUsages};

verus! {

/// The buffer masks the compute filter can accept on its sink side: it must
/// be able to copy the input buffer into its staging texture.
pub open spec fn spec_sobel_sink_allowed() -> Seq<BufferUsages> {
    seq![
        BufferUsages { map_read: false, map_write: false, copy_src: true, copy_dst: false },
        BufferUsages { map_read: false, map_write: true, copy_src: true, copy_dst: false },
    ]
}

/// The sink-side masks as a vector.
pub fn sobel_sink_allowed_usages() -> (r: Vec<BufferUsages>)
    ensures
        r@ =~= spec_sobel_sink_allowed(),
{
    let mut r: Vec<BufferUsages> = Vec::new();
    r.push(BufferUsages { map_read: false, map_write: false, copy_src: true, copy_dst: false });
    r.push(BufferUsages { map_read: false, map_write: true, copy_src: true, copy_dst: false });
    r
}

/// The buffer masks the compute filter can offer on its source side: it must
/// be able to copy its staging texture into the output buffer.
pub open spec fn spec_sobel_src_allowed() -> Seq<BufferUsages> {
    seq![
        BufferUsages { map_read: false, map_write: false, copy_src: false, copy_dst: true },
        BufferUsages { map_read: true, map_write: false, copy_src: false, copy_dst: true },
    ]
}

/// The source-side masks as a vector.
pub fn sobel_src_allowed_usages() -> (r: Vec<BufferUsages>)
    ensures
        r@ =~= spec_sobel_src_allowed(),
{
    let mut r: Vec<BufferUsages> = Vec::new();
    r.push(BufferUsages { map_read: false, map_write: false, copy_src: false, copy_dst: true });
    r.push(BufferUsages { map_read: true, map_write: false, copy_src: false, copy_dst: true });
    r
}

/// Whether `s` may stand in the compute filter's offer for the given
/// direction.
pub open spec fn spec_sobel_offer_member(
    direction: PadDirection,
    caps: Seq<CapsStructure>,
    s: CapsStructure,
) -> bool {
    match direction {
        PadDirection::Sink => spec_in_buffer_rewrite(caps, spec_sobel_src_allowed(), s),
        PadDirection::Src => spec_in_buffer_rewrite(caps, spec_sobel_sink_allowed(), s),
    }
}

/// The mask of the input staging texture: the stage copies into it and the
/// program samples it.
pub open spec fn spec_input_staging_usage() -> TextureUsages {
    TextureUsages { copy_src: false, copy_dst: true, texture_binding: true, storage_binding: false }
}

/// The mask of the output staging texture: the program writes it as a
/// storage image and the stage copies out of it.
pub open spec fn spec_output_staging_usage() -> TextureUsages {
    TextureUsages { copy_src: true, copy_dst: false, texture_binding: true, storage_binding: true }
}

/// The GPU-resident intermediates the compute filter works through: the two
/// staging textures the fixed shape allocated, and the program bound to
/// them.
#[derive(Clone, Debug)]
pub struct ComputeState {
    /// The staging texture the input buffer is copied into.
    pub input_texture: WgpuTextureMemory,
    /// The staging texture the program writes and the stage copies out.
    pub output_texture: WgpuTextureMemory,
    /// Whether the compute program is bound to the two textures.
    pub program_bound: bool,
}

impl ComputeState {
    /// Consistent intermediates: both textures are well-formed, carry the
    /// staging masks, and the program is bound.
    pub open spec fn wf(self) -> bool {
        self.input_texture.wf() && self.output_texture.wf()
            && self.input_texture.descriptor.usage == spec_input_staging_usage()
            && self.output_texture.descriptor.usage == spec_output_staging_usage()
            && self.program_bound
    }
}

/// The outcome of the compute filter's format commit: both descriptors must
/// carry buffer-usage fields, the input a copy source, the output a copy
/// destination.
pub open spec fn spec_sobel_set_caps_result(
    incaps: Seq<CapsStructure>,
    outcaps: Seq<CapsStructure>,
) -> Result<(), PipelineError> {
    if outcaps.len() == 0 {
        Err(PipelineError::MalformedDescriptor)
    } else {
        match outcaps[0].usage {
            CapsUsage::Buffer(ou) => if incaps.len() == 0 {
                Err(PipelineError::MalformedDescriptor)
            } else {
                match incaps[0].usage {
                    CapsUsage::Buffer(iu) => if !iu.copy_src {
                        Err(PipelineError::CapabilityMissing)
                    } else if !ou.copy_dst {
                        Err(PipelineError::CapabilityMissing)
                    } else {
                        Ok(())
                    },
                    _ => Err(PipelineError::MalformedDescriptor),
                }
            },
            _ => Err(PipelineError::MalformedDescriptor),
        }
    }
}

/// The compute-filter stage over GPU buffer memory.
#[derive(Clone, Debug)]
pub struct WgpuSobelBuf {
    /// The shared device context, once adopted or created.
    pub wgpu_context: Option<WgpuContext>,
    /// The committed input-side mask; `None` until caps are fixed.
    pub sink_usages: Option<BufferUsages>,
    /// The committed output-side mask; `None` until caps are fixed.
    pub src_usages: Option<BufferUsages>,
    /// The staging textures and program; `None` until the shape is fixed.
    pub pipeline: Option<ComputeState>,
}

impl WgpuSobelBuf {
    /// A consistent stage: once the shape is fixed, the intermediates are
    /// consistent and live on the stage's own context.
    pub open spec fn wf(self) -> bool {
        match self.pipeline {
            Some(st) => st.wf() && (self.wgpu_context matches Some(c)
                && st.input_texture.context.id == c.id && st.output_texture.context.id == c.id),
            None => true,
        }
    }

    /// A fresh stage: no context, nothing negotiated, no intermediates.
    pub fn new() -> (r: Self)
        ensures
            r.wgpu_context is None,
            r.sink_usages is None,
            r.src_usages is None,
            r.pipeline is None,
            r.wf(),
    {
        WgpuSobelBuf { wgpu_context: None, sink_usages: None, src_usages: None, pipeline: None }
    }

    /// Records the shared context.  The first context wins.
    pub fn set_wgpu_context(&mut self, context: WgpuContext)
        requires
            old(self).pipeline is None,
        ensures
            final(self).wgpu_context == (if old(self).wgpu_context is Some {
                old(self).wgpu_context
            } else {
                Some(context)
            }),
            final(self).sink_usages == old(self).sink_usages,
            final(self).src_usages == old(self).src_usages,
            final(self).pipeline == old(self).pipeline,
            final(self).wf(),
    {
        if self.wgpu_context.is_none() {
            self.wgpu_context = Some(context);
        }
    }

    /// Starts the stage: adopts a neighbour's context when one was found,
    /// else keeps `own`.  Returns true when `own` was taken and must be
    /// published.
    pub fn start(&mut self, found: Option<&WgpuContext>, own: WgpuContext) -> (created: bool)
        requires
            old(self).pipeline is None,
        ensures
            final(self).wgpu_context == Some(
                spec_adopted_context(
                    old(self).wgpu_context,
                    match found {
                        Some(c) => Some(*c),
                        None => None::<WgpuContext>,
                    },
                    own,
                ),
            ),
            created == (old(self).wgpu_context is None && found is None),
            final(self).sink_usages == old(self).sink_usages,
            final(self).src_usages == old(self).src_usages,
            final(self).pipeline == old(self).pipeline,
            final(self).wf(),
    {
        let (ctx, created) = adopt_context(self.wgpu_context.as_ref(), found, own);
        self.wgpu_context = Some(ctx);
        created
    }

    /// The offer-rewriting step: GPU-buffer offers on both sides, with the
    /// masks swapped by direction, intersected with the host's filter when
    /// one is given.
    pub fn transform_caps(
        &self,
        direction: PadDirection,
        caps: &Vec<CapsStructure>,
        filter: Option<&Vec<CapsStructure>>,
    ) -> (r: Vec<CapsStructure>)
        ensures
            forall|k: int| 0 <= k < r@.len() ==> spec_sobel_offer_member(direction, caps@, r@[k]),
            filter matches Some(f) ==> forall|k: int| 0 <= k < r@.len() ==> f@.contains(r@[k]),
            filter is None ==> forall|x: CapsStructure|
                spec_sobel_offer_member(direction, caps@, x) ==> r@.contains(x),
            filter matches Some(f) ==> forall|k: int|
                0 <= k < f@.len() && spec_sobel_offer_member(direction, caps@, f@[k])
                    ==> r@.contains(f@[k]),
    {
        let other_caps = match direction {
            PadDirection::Sink => {
                let allowed = sobel_src_allowed_usages();
                crate::caps::make_wgpu_buffer_usages_for_caps(caps, &allowed)
            },
            PadDirection::Src => {
                let allowed = sobel_sink_allowed_usages();
                crate::caps::make_wgpu_buffer_usages_for_caps(caps, &allowed)
            },
        };
        proof {
            assert forall|x: CapsStructure|
                spec_sobel_offer_member(direction, caps@, x) implies other_caps@.contains(x) by {
                match direction {
                    PadDirection::Sink => {
                        lemma_buffer_rewrite_contains(
                            caps@,
                            spec_sobel_src_allowed(),
                            other_caps@,
                            x,
                        );
                    },
                    PadDirection::Src => {
                        lemma_buffer_rewrite_contains(
                            caps@,
                            spec_sobel_sink_allowed(),
                            other_caps@,
                            x,
                        );
                    },
                }
            }
        }
        match filter {
            Some(f) => crate::caps::caps_intersect_first(f, &other_caps),
            None => other_caps,
        }
    }

    /// The format-commit step: the input descriptor must offer a buffer the
    /// stage can copy from, the output one it can copy into.  Both masks are
    /// recorded.
    pub fn set_caps(&mut self, incaps: &Vec<CapsStructure>, outcaps: &Vec<CapsStructure>) -> (r:
        Result<(), PipelineError>)
        requires
            old(self).wf(),
        ensures
            final(self).wf(),
            final(self).wgpu_context == old(self).wgpu_context,
            final(self).pipeline == old(self).pipeline,
            r == spec_sobel_set_caps_result(incaps@, outcaps@),
            r is Ok ==> final(self).sink_usages == Some(incaps@[0].usage->Buffer_0) && final(self).src_usages == Some(outcaps@[0].usage->Buffer_0),
            r is Err ==> final(self).sink_usages == old(self).sink_usages && final(self).src_usages
                == old(self).src_usages,
    {
        if outcaps.len() == 0 {
            return Err(PipelineError::MalformedDescriptor);
        }
        let ou = match outcaps[0].usage {
            CapsUsage::Buffer(ou) => ou,
            _ => {
                return Err(PipelineError::MalformedDescriptor);
            },
        };
        if incaps.len() == 0 {
            return Err(PipelineError::MalformedDescriptor);
        }
        let iu = match incaps[0].usage {
            CapsUsage::Buffer(iu) => iu,
            _ => {
                return Err(PipelineError::MalformedDescriptor);
            },
        };
        if !iu.copy_src {
            return Err(PipelineError::CapabilityMissing);
        }
        if !ou.copy_dst {
            return Err(PipelineError::CapabilityMissing);
        }
        self.sink_usages = Some(iu);
        self.src_usages = Some(ou);
        Ok(())
    }

    /// The shape-fix step: (re)allocates the two staging textures for the
    /// committed input and output shapes and binds the compute program to
    /// them.  Without a context the stage cannot build its intermediates and
    /// the call fails with `NegotiatedBeforeCommit`.
    pub fn set_info(
        &mut self,
        in_width: u32,
        in_height: u32,
        out_width: u32,
        out_height: u32,
    ) -> (r: Result<(), PipelineError>)
        requires
            old(self).wf(),
            1 <= in_width <= MAX_TEXTURE_DIMENSION,
            1 <= in_height <= MAX_TEXTURE_DIMENSION,
            1 <= out_width <= MAX_TEXTURE_DIMENSION,
            1 <= out_height <= MAX_TEXTURE_DIMENSION,
            old(self).wgpu_context matches Some(c) ==> c.alive,
        ensures
            final(self).wf(),
            final(self).wgpu_context == old(self).wgpu_context,
            final(self).sink_usages == old(self).sink_usages,
            final(self).src_usages == old(self).src_usages,
            old(self).wgpu_context is None ==> r == Err::<(), PipelineError>(
                PipelineError::NegotiatedBeforeCommit,
            ) && final(self).pipeline == old(self).pipeline,
            old(self).wgpu_context matches Some(c) ==> r == Ok::<(), PipelineError>(()) && (final(self).pipeline matches Some(st) && st.wf() && st.input_texture.descriptor
                == (TextureDescriptor {
                width: in_width,
                height: in_height,
                format: TextureFormat::Rgba8Unorm,
                usage: spec_input_staging_usage(),
            }) && st.output_texture.descriptor == (TextureDescriptor {
                width: out_width,
                height: out_height,
                format: TextureFormat::Rgba8Unorm,
                usage: spec_output_staging_usage(),
            }) && st.input_texture.context == c && st.output_texture.context == c
                && st.program_bound),
    {
        let ctx = match &self.wgpu_context {
            Some(c) => *c,
            None => {
                return Err(PipelineError::NegotiatedBeforeCommit);
            },
        };
        let input_descriptor = TextureDescriptor {
            width: in_width,
            height: in_height,
            format: TextureFormat::Rgba8Unorm,
            usage: TextureUsages {
                copy_src: false,
                copy_dst: true,
                texture_binding: true,
                storage_binding: false,
            },
        };
        let output_descriptor = TextureDescriptor {
            width: out_width,
            height: out_height,
            format: TextureFormat::Rgba8Unorm,
            usage: TextureUsages {
                copy_src: true,
                copy_dst: false,
                texture_binding: true,
                storage_binding: true,
            },
        };
        let input_texture = match WgpuTextureMemoryAllocator::new(ctx, input_descriptor).allocate(
            true,
        ) {
            Ok(t) => t,
            Err(e) => {
                proof {
                    assert(false);
                }
                return Err(e);
            },
        };
        let output_texture = match WgpuTextureMemoryAllocator::new(ctx, output_descriptor).allocate(
            true,
        ) {
            Ok(t) => t,
            Err(e) => {
                proof {
                    assert(false);
                }
                return Err(e);
            },
        };
        self.pipeline = Some(
            ComputeState { input_texture, output_texture, program_bound: true },
        );
        Ok(())
    }

    /// The steady-state transform: copies the input buffer into the input
    /// staging texture, dispatches the program over a grid of
    /// `ceil(width/8) × ceil(height/8)` work-groups, and copies the output
    /// staging texture into the output buffer, all in one submission whose
    /// completion the next stage's device work orders after itself — the
    /// returned plan carries no blocking wait.  The program itself is an
    /// opaque resource outside this subsystem: what it writes into the
    /// output staging texture enters as `program_output`, and the output
    /// buffer provably receives exactly those bytes.  A buffer of the wrong
    /// kind, a missing capability bit, missing intermediates, or a size not
    /// matching the staged extents fails with `NotNegotiated` and changes
    /// nothing.
    pub fn transform(
        &mut self,
        inbuf: &Memory,
        outmem: &mut Memory,
        program_output: &Vec<u8>,
    ) -> (r: Result<DispatchPlan, PipelineError>)
        requires
            old(self).wf(),
            spec_memory_wf(*inbuf),
            spec_memory_wf(*old(outmem)),
            *inbuf matches Memory::WgpuBuffer(a) ==> a.view is None,
            *old(outmem) matches Memory::WgpuBuffer(b) ==> b.view is None,
            match (*inbuf, old(self).wgpu_context) {
                (Memory::WgpuBuffer(a), Some(c)) => a.context.id == c.id,
                _ => true,
            },
            match (*old(outmem), old(self).wgpu_context) {
                (Memory::WgpuBuffer(b), Some(c)) => b.context.id == c.id,
                _ => true,
            },
        ensures
            final(self).wf(),
            spec_memory_wf(*final(outmem)),
            final(self).wgpu_context == old(self).wgpu_context,
            final(self).sink_usages == old(self).sink_usages,
            final(self).src_usages == old(self).src_usages,
            !spec_sobel_transform_ready(*old(self), *inbuf, *old(outmem), program_output@.len())
                ==> r == Err::<DispatchPlan, PipelineError>(PipelineError::NotNegotiated) && *final(outmem) == *old(outmem) && final(self).pipeline == old(self).pipeline,
            spec_sobel_transform_ready(*old(self), *inbuf, *old(outmem), program_output@.len())
                ==> (r matches Ok(plan) && plan.workgroups_x == spec_workgroups(
                old(self).pipeline->Some_0.input_texture.descriptor.width,
            ) && plan.workgroups_y == spec_workgroups(
                old(self).pipeline->Some_0.input_texture.descriptor.height,
            ) && plan.workgroups_z == 1 && !plan.wait_for_host && (*final(outmem) matches
            Memory::WgpuBuffer(b2) && *old(outmem) matches Memory::WgpuBuffer(b) && b2.data@
                == spec_copy_into(b.data@, program_output@) && b2.data@.len() == b.data@.len()
                && b2.view is None && b2.usage == b.usage && b2.context == b.context) && (final(self).pipeline matches Some(st2)
                && *inbuf matches Memory::WgpuBuffer(a) && st2.input_texture.data@ == a.data@.take(
                st2.input_texture.descriptor.spec_byte_size(),
            ) && st2.output_texture.data@ == program_output@ && st2.input_texture.descriptor
                == old(self).pipeline->Some_0.input_texture.descriptor
                && st2.output_texture.descriptor
                == old(self).pipeline->Some_0.output_texture.descriptor)),
    {
        let a = match inbuf {
            Memory::WgpuBuffer(a) => a,
            _ => {
                return Err(PipelineError::NotNegotiated);
            },
        };
        if !a.usage().copy_src {
            return Err(PipelineError::NotNegotiated);
        }
        if self.pipeline.is_none() {
            return Err(PipelineError::NotNegotiated);
        }
        if self.wgpu_context.is_none() {
            return Err(PipelineError::NotNegotiated);
        }
        let b = match outmem {
            Memory::WgpuBuffer(b) => b,
            _ => {
                return Err(PipelineError::NotNegotiated);
            },
        };
        if !b.usage().copy_dst {
            return Err(PipelineError::NotNegotiated);
        }
        let st = match &mut self.pipeline {
            Some(st) => st,
            None => {
                proof {
                    assert(false);
                }
                return Err(PipelineError::NotNegotiated);
            },
        };
        if a.size() < st.input_texture.descriptor().byte_size() {
            return Err(PipelineError::NotNegotiated);
        }
        if b.size() < st.output_texture.descriptor().byte_size() {
            return Err(PipelineError::NotNegotiated);
        }
        if program_output.len() != st.output_texture.descriptor().byte_size() {
            return Err(PipelineError::NotNegotiated);
        }
        let in_width = st.input_texture.descriptor().width;
        let in_height = st.input_texture.descriptor().height;
        copy_buffer_to_texture(a, &mut st.input_texture, in_width, in_height);
        let plan = DispatchPlan {
            workgroups_x: workgroups_for(in_width),
            workgroups_y: workgroups_for(in_height),
            workgroups_z: 1,
            wait_for_host: false,
        };
        write_full_extent(&mut st.output_texture, program_output);
        let out_width = st.output_texture.descriptor().width;
        let out_height = st.output_texture.descriptor().height;
        copy_texture_to_buffer(&st.output_texture, b, out_width, out_height);
        Ok(plan)
    }

    /// The allocator-proposal step for the stage's input side: offers the
    /// stage's own allocator bound to the mask the query's caps carry.  A
    /// query without caps, or whose caps carry no buffer-usage field, fails
    /// with `MalformedDescriptor`.
    pub fn propose_allocation(&self, query: &mut AllocationQuery) -> (r: Result<(), PipelineError>)
        requires
            self.wgpu_context is Some,
        ensures
            final(query).caps == old(query).caps,
            old(query).caps@.len() == 0 ==> r == Err::<(), PipelineError>(
                PipelineError::MalformedDescriptor,
            ) && *final(query) == *old(query),
            old(query).caps@.len() > 0 ==> match old(query).caps@[0].usage {
                CapsUsage::Buffer(u) => r == Ok::<(), PipelineError>(()) && final(query).params@.len() == old(query).params@.len() + 1 && (forall|k: int|
                    0 <= k < old(query).params@.len() ==> final(query).params@[k] == old(query).params@[k]) && (final(query).params@.last().0 matches
                    ProposedAllocator::WgpuBuffer(a) && a.explicit_usages == Some(u) && a.context
                    == self.wgpu_context->Some_0 && !final(query).params@.last().1.readonly),
                _ => r == Err::<(), PipelineError>(PipelineError::MalformedDescriptor) && *final(query) == *old(query),
            },
    {
        if query.caps.len() == 0 {
            return Err(PipelineError::MalformedDescriptor);
        }
        let u = match query.caps[0].usage {
            CapsUsage::Buffer(u) => u,
            _ => {
                return Err(PipelineError::MalformedDescriptor);
            },
        };
        let ctx = match &self.wgpu_context {
            Some(c) => *c,
            None => {
                proof {
                    assert(false);
                }
                return Err(PipelineError::MalformedDescriptor);
            },
        };
        let allocator = WgpuMemoryAllocator::new_with_explicit_usage(ctx, u);
        query.params.push(
            (ProposedAllocator::WgpuBuffer(allocator), AllocationParams { readonly: false }),
        );
        Ok(())
    }
}

/// Whether the compute filter can run one transform: the intermediates and
/// context are in place, the input is a GPU buffer it can copy from, the
/// output a GPU buffer it can copy into, both cover the staged extents, and
/// the program's output covers its storage texture exactly.
pub open spec fn spec_sobel_transform_ready(
    stage: WgpuSobelBuf,
    inbuf: Memory,
    outmem: Memory,
    program_output_len: nat,
) -> bool {
    &&& inbuf matches Memory::WgpuBuffer(a) && a.usage.copy_src && (stage.pipeline matches Some(st)
        && a.data@.len() >= st.input_texture.descriptor.spec_byte_size())
    &&& stage.wgpu_context is Some
    &&& outmem matches Memory::WgpuBuffer(b) && b.usage.copy_dst && (stage.pipeline matches Some(
        st,
    ) && b.data@.len() >= st.output_texture.descriptor.spec_byte_size())
    &&& stage.pipeline matches Some(st) && program_output_len
        == st.output_texture.descriptor.spec_byte_size()
}

} // verus!
