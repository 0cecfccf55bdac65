//! The GPU-to-host download stage, the mirror of the upload stage: its sink
//! side accepts GPU buffers, its source side offers plain host memory.  When
//! the incoming GPU buffer is already host-mappable the stage passes it
//! through; otherwise its transform performs the device-side buffer-to-buffer
//! copy into a mappable buffer of `min(input size, output size)` bytes and
//! blocks until the copy completes.

use vstd::prelude::*;

use crate::buffer_memory::{
    copy_buffer_to_buffer, spec_copy_into, AllocationParams, WgpuMemoryAllocator,
};
use crate::caps::{
    lemma_buffer_rewrite_contains, lemma_system_rewrite_contains, spec_in_buffer_rewrite,
    spec_in_system_rewrite, CapsStructure, CapsUsage,
};
use crate::context::WgpuContext;
use crate::errors::PipelineError;
use crate::negotiate::{
    adopt_context, retain_buffer_proposals, spec_adopted_context, spec_buffer_proposal_ok,
    AllocationQuery, Memory, PadDirection, ProposedAllocator, spec_memory_wf,
};
use crate::usages::BufferUsages;

verus! {

/// The masks the download stage can accept on its GPU-facing sink side: the
/// buffer must be host-mappable one way or the other, alone or combined with
/// the copy capability that lets the stage copy out of or into it.
pub open spec fn spec_download_sink_allowed() -> Seq<BufferUsages> {
    seq![
        BufferUsages { map_read: false, map_write: true, copy_src: false, copy_dst: false },
        BufferUsages { map_read: true, map_write: false, copy_src: false, copy_dst: false },
        BufferUsages { map_read: false, map_write: true, copy_src: true, copy_dst: false },
        BufferUsages { map_read: true, map_write: false, copy_src: false, copy_dst: true },
    ]
}

/// The sink-side masks as a vector.
pub fn download_sink_allowed_usages() -> (r: Vec<BufferUsages>)
    ensures
        r@ =~= spec_download_sink_allowed(),
{
    let mut r: Vec<BufferUsages> = Vec::new();
    r.push(BufferUsages { map_read: false, map_write: true, copy_src: false, copy_dst: false });
    r.push(BufferUsages { map_read: true, map_write: false, copy_src: false, copy_dst: false });
    r.push(BufferUsages { map_read: false, map_write: true, copy_src: true, copy_dst: false });
    r.push(BufferUsages { map_read: true, map_write: false, copy_src: false, copy_dst: true });
    r
}

/// Whether `s` may stand in the download stage's offer for the given
/// direction: toward downstream every candidate is rewritten for plain host
/// memory; toward upstream every candidate is offered once per allowed
/// sink-side mask.
pub open spec fn spec_download_offer_member(
    direction: PadDirection,
    caps: Seq<CapsStructure>,
    s: CapsStructure,
) -> bool {
    match direction {
        PadDirection::Sink => spec_in_system_rewrite(caps, s),
        PadDirection::Src => spec_in_buffer_rewrite(caps, spec_download_sink_allowed(), s),
    }
}

/// The mask that makes an incoming buffer host-mappable for this stage.
pub open spec fn spec_mappable_mask() -> BufferUsages {
    BufferUsages { map_read: true, map_write: true, copy_src: false, copy_dst: false }
}

/// Whether the per-buffer check puts the download stage into pass-through:
/// exactly when the incoming memory is a GPU buffer whose mask already has a
/// host-mappable bit.  Memory of any other kind forces the copy path.
pub open spec fn spec_download_passthrough(inmem: Memory) -> bool {
    match inmem {
        Memory::WgpuBuffer(b) => b.usage.spec_intersects(spec_mappable_mask()),
        _ => false,
    }
}

/// The GPU-to-host download stage.
#[derive(Clone, Debug)]
pub struct WgpuBufferDownload {
    /// The shared device context, once adopted or created.
    pub wgpu_context: Option<WgpuContext>,
    /// The committed input-side mask; `None` until caps are fixed.
    pub sink_usages: Option<BufferUsages>,
    /// Whether the stage currently passes buffers through untouched.
    pub passthrough: bool,
}

impl WgpuBufferDownload {
    /// A fresh stage: no context, nothing negotiated, not in pass-through.
    pub fn new() -> (r: Self)
        ensures
            r.wgpu_context is None,
            r.sink_usages is None,
            !r.passthrough,
    {
        WgpuBufferDownload { wgpu_context: None, sink_usages: None, passthrough: false }
    }

    /// Records the shared context.  The first context wins: once one is
    /// held, later offers are ignored.
    pub fn set_wgpu_context(&mut self, context: WgpuContext)
        ensures
            final(self).wgpu_context == (if old(self).wgpu_context is Some {
                old(self).wgpu_context
            } else {
                Some(context)
            }),
            final(self).sink_usages == old(self).sink_usages,
            final(self).passthrough == old(self).passthrough,
    {
        if self.wgpu_context.is_none() {
            self.wgpu_context = Some(context);
        }
    }

    /// Starts the stage: adopts a neighbour's context when one was found,
    /// else keeps `own`.  Returns true when `own` was taken and must be
    /// published.
    pub fn start(&mut self, found: Option<&WgpuContext>, own: WgpuContext) -> (created: bool)
        ensures
            final(self).wgpu_context == Some(
                spec_adopted_context(
                    old(self).wgpu_context,
                    match found {
                        Some(c) => Some(*c),
                        None => None::<WgpuContext>,
                    },
                    own,
                ),
            ),
            created == (old(self).wgpu_context is None && found is None),
            final(self).sink_usages == old(self).sink_usages,
            final(self).passthrough == old(self).passthrough,
    {
        let (ctx, created) = adopt_context(self.wgpu_context.as_ref(), found, own);
        self.wgpu_context = Some(ctx);
        created
    }

    /// The offer-rewriting step, the mirror of the upload stage's: GPU
    /// buffer offers toward upstream, plain host memory toward downstream,
    /// intersected with the host's filter when one is given.
    pub fn transform_caps(
        &self,
        direction: PadDirection,
        caps: &Vec<CapsStructure>,
        filter: Option<&Vec<CapsStructure>>,
    ) -> (r: Vec<CapsStructure>)
        ensures
            forall|k: int|
                0 <= k < r@.len() ==> spec_download_offer_member(direction, caps@, r@[k]),
            filter matches Some(f) ==> forall|k: int| 0 <= k < r@.len() ==> f@.contains(r@[k]),
            filter is None ==> forall|x: CapsStructure|
                spec_download_offer_member(direction, caps@, x) ==> r@.contains(x),
            filter matches Some(f) ==> forall|k: int|
                0 <= k < f@.len() && spec_download_offer_member(direction, caps@, f@[k])
                    ==> r@.contains(f@[k]),
    {
        let other_caps = match direction {
            PadDirection::Sink => crate::caps::caps_to_system_memory(caps),
            PadDirection::Src => {
                let allowed = download_sink_allowed_usages();
                crate::caps::make_wgpu_buffer_usages_for_caps(caps, &allowed)
            },
        };
        proof {
            assert forall|x: CapsStructure|
                spec_download_offer_member(direction, caps@, x) implies other_caps@.contains(
                x,
            ) by {
                match direction {
                    PadDirection::Sink => {
                        lemma_system_rewrite_contains(caps@, other_caps@, x);
                    },
                    PadDirection::Src => {
                        lemma_buffer_rewrite_contains(
                            caps@,
                            spec_download_sink_allowed(),
                            other_caps@,
                            x,
                        );
                    },
                }
            }
        }
        match filter {
            Some(f) => crate::caps::caps_intersect_first(f, &other_caps),
            None => other_caps,
        }
    }

    /// The format-commit step: records the committed input descriptor's
    /// mask.  The descriptor must exist and carry a buffer-usage field, and
    /// the mask must let the stage map the incoming buffers one way or the
    /// other.
    pub fn set_caps(&mut self, incaps: &Vec<CapsStructure>, outcaps: &Vec<CapsStructure>) -> (r:
        Result<(), PipelineError>)
        ensures
            final(self).wgpu_context == old(self).wgpu_context,
            final(self).passthrough == old(self).passthrough,
            incaps@.len() == 0 ==> r == Err::<(), PipelineError>(PipelineError::MalformedDescriptor)
                && final(self).sink_usages == old(self).sink_usages,
            incaps@.len() > 0 ==> match incaps@[0].usage {
                CapsUsage::Buffer(u) => if u.spec_intersects(spec_mappable_mask()) {
                    r == Ok::<(), PipelineError>(()) && final(self).sink_usages == Some(u)
                } else {
                    r == Err::<(), PipelineError>(PipelineError::CapabilityMissing) && final(self).sink_usages == old(self).sink_usages
                },
                _ => r == Err::<(), PipelineError>(PipelineError::MalformedDescriptor) && final(self).sink_usages == old(self).sink_usages,
            },
    {
        if incaps.len() == 0 {
            return Err(PipelineError::MalformedDescriptor);
        }
        match incaps[0].usage {
            CapsUsage::Buffer(u) => {
                if u.map_read || u.map_write {
                    self.sink_usages = Some(u);
                    Ok(())
                } else {
                    Err(PipelineError::CapabilityMissing)
                }
            },
            _ => Err(PipelineError::MalformedDescriptor),
        }
    }

    /// The per-buffer mode check, re-evaluated on every buffer: an incoming
    /// GPU buffer that is already host-mappable passes through, one that is
    /// not forces the copy path, and memory this stage does not recognise
    /// forces it too — the transform then refuses it.  Returns whether the
    /// mode changed, which tells the host to reconfigure.
    pub fn before_transform(&mut self, inmem: &Memory) -> (changed: bool)
        ensures
            final(self).passthrough == spec_download_passthrough(*inmem),
            changed == (old(self).passthrough != final(self).passthrough),
            final(self).wgpu_context == old(self).wgpu_context,
            final(self).sink_usages == old(self).sink_usages,
    {
        let new_passthrough = match inmem {
            Memory::WgpuBuffer(b) => {
                let u = b.usage();
                u.map_read || u.map_write
            },
            _ => false,
        };
        let changed = self.passthrough != new_passthrough;
        self.passthrough = new_passthrough;
        changed
    }

    /// The copy path: the device-side buffer-to-buffer copy of
    /// `min(input size, output size)` bytes, after which the stage has
    /// blocked until the copy completed, bounded by the context's polling.
    /// Both buffers must be GPU buffers with the matching copy capability —
    /// anything else fails with `NotNegotiated` and changes nothing.
    pub fn transform(&self, inbuf: &Memory, outmem: &mut Memory) -> (r: Result<(), PipelineError>)
        requires
            spec_memory_wf(*inbuf),
            spec_memory_wf(*old(outmem)),
            *inbuf matches Memory::WgpuBuffer(a) ==> a.view is None,
            *old(outmem) matches Memory::WgpuBuffer(b) ==> b.view is None,
            match (*inbuf, *old(outmem)) {
                (Memory::WgpuBuffer(a), Memory::WgpuBuffer(b)) => a.context.id == b.context.id,
                _ => true,
            },
        ensures
            spec_memory_wf(*final(outmem)),
            !(*inbuf is WgpuBuffer) ==> r == Err::<(), PipelineError>(PipelineError::NotNegotiated)
                && *final(outmem) == *old(outmem),
            match (*inbuf, *old(outmem)) {
                (Memory::WgpuBuffer(a), _) => if !a.usage.copy_src {
                    r == Err::<(), PipelineError>(PipelineError::NotNegotiated) && *final(outmem)
                        == *old(outmem)
                } else {
                    match *old(outmem) {
                        Memory::WgpuBuffer(b) => if b.usage.copy_dst {
                            r == Ok::<(), PipelineError>(()) && (*final(outmem) matches
                            Memory::WgpuBuffer(b2) && b2.data@ == spec_copy_into(b.data@, a.data@)
                                && b2.view is None && b2.usage == b.usage && b2.context
                                == b.context)
                        } else {
                            r == Err::<(), PipelineError>(PipelineError::NotNegotiated) && *final(outmem) == *old(outmem)
                        },
                        _ => r == Err::<(), PipelineError>(PipelineError::NotNegotiated) && *final(outmem) == *old(outmem),
                    }
                },
                _ => true,
            },
    {
        let src = match inbuf {
            Memory::WgpuBuffer(a) => a,
            _ => {
                return Err(PipelineError::NotNegotiated);
            },
        };
        if !src.usage().copy_src {
            return Err(PipelineError::NotNegotiated);
        }
        let dst = match outmem {
            Memory::WgpuBuffer(b) => b,
            _ => {
                return Err(PipelineError::NotNegotiated);
            },
        };
        if !dst.usage().copy_dst {
            return Err(PipelineError::NotNegotiated);
        }
        copy_buffer_to_buffer(src, dst);
        Ok(())
    }

    /// The allocator-decision step for the stage's output side.  When the
    /// committed input mask is already host-mappable the stage instead
    /// switches itself to pass-through and leaves the query alone.
    /// Otherwise it keeps the GPU-buffer proposals whose bound mask lets it
    /// read the copy back, and supplies its own
    /// {read-map, copy-destination} allocator when none remains.  Before the
    /// format commit the call fails with `NegotiatedBeforeCommit`.
    pub fn decide_allocation(&mut self, query: &mut AllocationQuery) -> (r: Result<
        (),
        PipelineError,
    >)
        requires
            old(self).sink_usages is Some ==> old(self).wgpu_context is Some,
        ensures
            final(self).wgpu_context == old(self).wgpu_context,
            final(self).sink_usages == old(self).sink_usages,
            final(query).caps == old(query).caps,
            old(self).sink_usages is None ==> r == Err::<(), PipelineError>(
                PipelineError::NegotiatedBeforeCommit,
            ) && *final(query) == *old(query) && final(self).passthrough == old(self).passthrough,
            match old(self).sink_usages {
                Some(u) => if u.spec_intersects(spec_mappable_mask()) {
                    r == Ok::<(), PipelineError>(()) && final(self).passthrough && *final(query)
                        == *old(query)
                } else {
                    r == Ok::<(), PipelineError>(()) && final(self).passthrough == old(self).passthrough && {
                        let req = spec_download_required_mask();
                        if exists|k: int|
                            0 <= k < old(query).params@.len() && spec_buffer_proposal_ok(
                                #[trigger] old(query).params@[k],
                                req,
                                false,
                            ) {
                            final(query).params@.len() > 0 && (forall|k: int|
                                0 <= k < final(query).params@.len() ==> spec_buffer_proposal_ok(
                                    #[trigger] final(query).params@[k],
                                    req,
                                    false,
                                ) && old(query).params@.contains(final(query).params@[k])) && (
                            forall|k: int|
                                0 <= k < old(query).params@.len() && spec_buffer_proposal_ok(
                                    #[trigger] old(query).params@[k],
                                    req,
                                    false,
                                ) ==> final(query).params@.contains(old(query).params@[k]))
                        } else {
                            final(query).params@.len() == 1 && (final(query).params@[0].0 matches ProposedAllocator::WgpuBuffer(a)
                                && a.explicit_usages == Some(req) && a.context == old(self).wgpu_context->Some_0 && !final(query).params@[0].1.readonly)
                        }
                    }
                },
                None => true,
            },
    {
        let sink_usages = match &self.sink_usages {
            Some(u) => *u,
            None => {
                return Err(PipelineError::NegotiatedBeforeCommit);
            },
        };
        if sink_usages.map_read || sink_usages.map_write {
            self.passthrough = true;
            return Ok(());
        }
        let required = BufferUsages {
            map_read: true,
            map_write: false,
            copy_src: false,
            copy_dst: true,
        };
        retain_buffer_proposals(&mut query.params, &required, false);
        if query.params.len() == 0 {
            let ctx = match &self.wgpu_context {
                Some(c) => *c,
                None => {
                    proof {
                        assert(false);
                    }
                    return Err(PipelineError::NegotiatedBeforeCommit);
                },
            };
            let allocator = WgpuMemoryAllocator::new_with_explicit_usage(ctx, required);
            query.params.push(
                (ProposedAllocator::WgpuBuffer(allocator), AllocationParams { readonly: false }),
            );
        }
        Ok(())
    }

    /// The allocator-proposal step for the stage's input side: offers the
    /// stage's own allocator bound to the mask the query's caps carry.  A
    /// query without caps, or whose caps carry no buffer-usage field, fails
    /// with `MalformedDescriptor` rather than guessing a default.
    pub fn propose_allocation(&self, query: &mut AllocationQuery) -> (r: Result<(), PipelineError>)
        requires
            self.wgpu_context is Some,
        ensures
            final(query).caps == old(query).caps,
            old(query).caps@.len() == 0 ==> r == Err::<(), PipelineError>(
                PipelineError::MalformedDescriptor,
            ) && *final(query) == *old(query),
            old(query).caps@.len() > 0 ==> match old(query).caps@[0].usage {
                CapsUsage::Buffer(u) => r == Ok::<(), PipelineError>(()) && final(query).params@.len() == old(query).params@.len() + 1 && (forall|k: int|
                    0 <= k < old(query).params@.len() ==> final(query).params@[k] == old(query).params@[k]) && (final(query).params@.last().0 matches
                    ProposedAllocator::WgpuBuffer(a) && a.explicit_usages == Some(u) && a.context
                    == self.wgpu_context->Some_0 && !final(query).params@.last().1.readonly),
                _ => r == Err::<(), PipelineError>(PipelineError::MalformedDescriptor) && *final(query) == *old(query),
            },
    {
        if query.caps.len() == 0 {
            return Err(PipelineError::MalformedDescriptor);
        }
        let u = match query.caps[0].usage {
            CapsUsage::Buffer(u) => u,
            _ => {
                return Err(PipelineError::MalformedDescriptor);
            },
        };
        let ctx = match &self.wgpu_context {
            Some(c) => *c,
            None => {
                proof {
                    assert(false);
                }
                return Err(PipelineError::MalformedDescriptor);
            },
        };
        let allocator = WgpuMemoryAllocator::new_with_explicit_usage(ctx, u);
        query.params.push(
            (ProposedAllocator::WgpuBuffer(allocator), AllocationParams { readonly: false }),
        );
        Ok(())
    }
}

/// The mask the download stage requires of a proposed output allocator when
/// it must copy: it reads the copy back on the host, so the buffer must be
/// a copy destination it can map for reading.
pub open spec fn spec_download_required_mask() -> BufferUsages {
    BufferUsages { map_read: true, map_write: false, copy_src: false, copy_dst: true }
}

} // verus!
