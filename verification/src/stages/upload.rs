//! The host-to-GPU upload stage: its sink side accepts any host memory, its
//! source side offers GPU buffers the stage can map for writing.  When the
//! incoming memory is already a GPU buffer of the shared context, the stage
//! passes it through untouched instead of copying.

use vstd::prelude::*;

use crate::buffer_memory::{
    spec_copy_into, spec_map_completes, spec_eventually_ready, spec_write_grant, AllocationParams,
    MapEvent, WgpuMemoryAllocator,
};
use crate::caps::{
    lemma_buffer_rewrite_contains, lemma_system_rewrite_contains, spec_in_buffer_rewrite,
    spec_in_system_rewrite, CapsStructure, CapsUsage,
};
use crate::context::{spec_needs_poller, WgpuContext};
use crate::errors::PipelineError;
use crate::negotiate::{
    adopt_context, retain_buffer_proposals, spec_adopted_context, spec_buffer_proposal_ok,
    spec_memory_wf, AllocationQuery, Memory, PadDirection, ProposedAllocator,
};
use crate::usages::BufferUsages;

verus! {

/// The masks the upload stage can offer on its GPU-facing source side: it
/// must be able to map each output buffer for writing, and may also offer it
/// as a copy source for the next stage.
pub open spec fn spec_upload_src_allowed() -> Seq<BufferUsages> {
    seq![
        BufferUsages { map_read: false, map_write: true, copy_src: false, copy_dst: false },
        BufferUsages { map_read: false, map_write: true, copy_src: true, copy_dst: false },
    ]
}

/// The source-side masks as a vector.
pub fn upload_src_allowed_usages() -> (r: Vec<BufferUsages>)
    ensures
        r@ =~= spec_upload_src_allowed(),
{
    let mut r: Vec<BufferUsages> = Vec::new();
    r.push(BufferUsages { map_read: false, map_write: true, copy_src: false, copy_dst: false });
    r.push(BufferUsages { map_read: false, map_write: true, copy_src: true, copy_dst: false });
    r
}

/// Whether `s` may stand in the upload stage's offer for the given
/// direction: toward upstream every candidate is rewritten for plain host
/// memory; toward downstream every candidate is offered once per allowed
/// source-side mask.
pub open spec fn spec_upload_offer_member(
    direction: PadDirection,
    caps: Seq<CapsStructure>,
    s: CapsStructure,
) -> bool {
    match direction {
        PadDirection::Src => spec_in_system_rewrite(caps, s),
        PadDirection::Sink => spec_in_buffer_rewrite(caps, spec_upload_src_allowed(), s),
    }
}

/// Whether the per-buffer check puts the upload stage into pass-through:
/// exactly when the incoming memory is already a GPU buffer.
pub open spec fn spec_upload_passthrough(inmem: Memory) -> bool {
    inmem is WgpuBuffer
}

/// The host-to-GPU upload stage.
#[derive(Clone, Debug)]
pub struct WgpuBufferUpload {
    /// The shared device context, once adopted or created.
    pub wgpu_context: Option<WgpuContext>,
    /// The committed output-side mask; `None` until caps are fixed.
    pub src_usages: Option<BufferUsages>,
    /// Whether the stage currently passes buffers through untouched.
    pub passthrough: bool,
}

impl WgpuBufferUpload {
    /// A fresh stage: no context, nothing negotiated, not in pass-through.
    pub fn new() -> (r: Self)
        ensures
            r.wgpu_context is None,
            r.src_usages is None,
            !r.passthrough,
    {
        WgpuBufferUpload { wgpu_context: None, src_usages: None, passthrough: false }
    }

    /// Records the shared context.  The first context wins: once one is
    /// held, later offers are ignored.
    pub fn set_wgpu_context(&mut self, context: WgpuContext)
        ensures
            final(self).wgpu_context == (if old(self).wgpu_context is Some {
                old(self).wgpu_context
            } else {
                Some(context)
            }),
            final(self).src_usages == old(self).src_usages,
            final(self).passthrough == old(self).passthrough,
    {
        if self.wgpu_context.is_none() {
            self.wgpu_context = Some(context);
        }
    }

    /// Starts the stage: adopts a neighbour's context when one was found,
    /// else keeps `own`, the context the stage created for itself.  Returns
    /// true when `own` was taken, in which case the host must publish it so
    /// the neighbours can adopt it.
    pub fn start(&mut self, found: Option<&WgpuContext>, own: WgpuContext) -> (created: bool)
        ensures
            final(self).wgpu_context == Some(
                spec_adopted_context(
                    old(self).wgpu_context,
                    match found {
                        Some(c) => Some(*c),
                        None => None::<WgpuContext>,
                    },
                    own,
                ),
            ),
            created == (old(self).wgpu_context is None && found is None),
            final(self).src_usages == old(self).src_usages,
            final(self).passthrough == old(self).passthrough,
    {
        let (ctx, created) = adopt_context(self.wgpu_context.as_ref(), found, own);
        self.wgpu_context = Some(ctx);
        created
    }

    /// The offer-rewriting step: produces, for the other side, every
    /// combination of the candidate descriptors with the masks this stage
    /// can serve there, intersected with the host's filter when one is
    /// given.  The result is exactly the set of such combinations (that also
    /// stand in the filter).
    pub fn transform_caps(
        &self,
        direction: PadDirection,
        caps: &Vec<CapsStructure>,
        filter: Option<&Vec<CapsStructure>>,
    ) -> (r: Vec<CapsStructure>)
        ensures
            forall|k: int| 0 <= k < r@.len() ==> spec_upload_offer_member(direction, caps@, r@[k]),
            filter matches Some(f) ==> forall|k: int| 0 <= k < r@.len() ==> f@.contains(r@[k]),
            filter is None ==> forall|x: CapsStructure|
                spec_upload_offer_member(direction, caps@, x) ==> r@.contains(x),
            filter matches Some(f) ==> forall|k: int|
                0 <= k < f@.len() && spec_upload_offer_member(direction, caps@, f@[k])
                    ==> r@.contains(f@[k]),
    {
        let other_caps = match direction {
            PadDirection::Src => crate::caps::caps_to_system_memory(caps),
            PadDirection::Sink => {
                let allowed = upload_src_allowed_usages();
                crate::caps::make_wgpu_buffer_usages_for_caps(caps, &allowed)
            },
        };
        proof {
            assert forall|x: CapsStructure|
                spec_upload_offer_member(direction, caps@, x) implies other_caps@.contains(x) by {
                match direction {
                    PadDirection::Src => {
                        lemma_system_rewrite_contains(caps@, other_caps@, x);
                    },
                    PadDirection::Sink => {
                        lemma_buffer_rewrite_contains(
                            caps@,
                            spec_upload_src_allowed(),
                            other_caps@,
                            x,
                        );
                    },
                }
            }
        }
        match filter {
            Some(f) => crate::caps::caps_intersect_first(f, &other_caps),
            None => other_caps,
        }
    }

    /// The format-commit step: records the committed output descriptor's
    /// mask.  The descriptor must exist and carry a buffer-usage field, and
    /// the mask must let the stage map its output buffers for writing.
    pub fn set_caps(&mut self, incaps: &Vec<CapsStructure>, outcaps: &Vec<CapsStructure>) -> (r:
        Result<(), PipelineError>)
        ensures
            final(self).wgpu_context == old(self).wgpu_context,
            final(self).passthrough == old(self).passthrough,
            outcaps@.len() == 0 ==> r == Err::<(), PipelineError>(PipelineError::MalformedDescriptor)
                && final(self).src_usages == old(self).src_usages,
            outcaps@.len() > 0 ==> match outcaps@[0].usage {
                CapsUsage::Buffer(u) => if u.map_write {
                    r == Ok::<(), PipelineError>(()) && final(self).src_usages == Some(u)
                } else {
                    r == Err::<(), PipelineError>(PipelineError::CapabilityMissing) && final(self).src_usages == old(self).src_usages
                },
                _ => r == Err::<(), PipelineError>(PipelineError::MalformedDescriptor) && final(self).src_usages == old(self).src_usages,
            },
    {
        if outcaps.len() == 0 {
            return Err(PipelineError::MalformedDescriptor);
        }
        match outcaps[0].usage {
            CapsUsage::Buffer(u) => {
                if u.map_write {
                    self.src_usages = Some(u);
                    Ok(())
                } else {
                    Err(PipelineError::CapabilityMissing)
                }
            },
            _ => Err(PipelineError::MalformedDescriptor),
        }
    }

    /// The per-buffer mode check, re-evaluated on every buffer because the
    /// upstream memory kind can vary: a GPU buffer passes through as is, any
    /// other kind forces the copy path.  A GPU buffer of a different context
    /// is a fatal inconsistency and is excluded by precondition.  Returns
    /// whether the mode changed, which tells the host to reconfigure.
    pub fn before_transform(&mut self, inmem: &Memory) -> (changed: bool)
        requires
            old(self).wgpu_context is Some,
            *inmem matches Memory::WgpuBuffer(b) ==> b.context.id == old(self).wgpu_context->Some_0.id,
        ensures
            final(self).passthrough == spec_upload_passthrough(*inmem),
            changed == (old(self).passthrough != final(self).passthrough),
            final(self).wgpu_context == old(self).wgpu_context,
            final(self).src_usages == old(self).src_usages,
    {
        let new_passthrough = matches!(inmem, Memory::WgpuBuffer(_));
        let changed = self.passthrough != new_passthrough;
        self.passthrough = new_passthrough;
        changed
    }

    /// The copy path: fills the output GPU buffer with the incoming host
    /// bytes by mapping it for writing, writing through the view, and
    /// unmapping.  Only host memory is accepted on this path — any other
    /// kind fails with `NotNegotiated` — and on every exit, error or not, no
    /// view is left on the output buffer beyond the one it already had.
    pub fn transform(
        &self,
        inbuf: &Memory,
        outmem: &mut Memory,
        events: &Vec<MapEvent>,
        timeout_rounds: u64,
    ) -> (r: Result<(), PipelineError>)
        requires
            spec_memory_wf(*old(outmem)),
            (*old(outmem) matches Memory::WgpuBuffer(b) && spec_needs_poller(b.context.poll_type))
                ==> spec_eventually_ready(events@),
        ensures
            spec_memory_wf(*final(outmem)),
            !(*inbuf is System) ==> r == Err::<(), PipelineError>(PipelineError::NotNegotiated)
                && *final(outmem) == *old(outmem),
            *inbuf is System && !(*old(outmem) is WgpuBuffer) ==> r == Err::<(), PipelineError>(
                PipelineError::NotNegotiated,
            ) && *final(outmem) == *old(outmem),
            match (*inbuf, *old(outmem)) {
                (Memory::System(src), Memory::WgpuBuffer(b)) => match r {
                    Ok(()) => b.view is None && spec_write_grant(b.usage) is Some
                        && spec_map_completes(b.context.poll_type, events@, timeout_rounds) && (
                    *final(outmem) matches Memory::WgpuBuffer(b2) && b2.data@ == spec_copy_into(
                        b.data@,
                        src@,
                    ) && b2.view is None && b2.usage == b.usage && b2.context == b.context),
                    Err(e) => (e == PipelineError::AlreadyMapped || e
                        == PipelineError::CapabilityMissing || e == PipelineError::MapTimeout) && (e
                        == PipelineError::AlreadyMapped <==> b.view is Some) && (e
                        == PipelineError::CapabilityMissing <==> b.view is None
                        && !b.usage.map_write) && (e == PipelineError::MapTimeout <==> b.view
                        is None && b.usage.map_write && !spec_map_completes(
                        b.context.poll_type,
                        events@,
                        timeout_rounds,
                    )) && *final(outmem) == *old(outmem),
                },
                _ => true,
            },
    {
        let src = match inbuf {
            Memory::System(src) => src,
            _ => {
                return Err(PipelineError::NotNegotiated);
            },
        };
        let out = match outmem {
            Memory::WgpuBuffer(b) => b,
            _ => {
                return Err(PipelineError::NotNegotiated);
            },
        };
        let len = out.size();
        match out.map_write(len, events, timeout_rounds) {
            Ok(_) => {},
            Err(e) => {
                return Err(e);
            },
        }
        out.write_mapped(src);
        out.unmap();
        Ok(())
    }

    /// The size of one unit buffer under a fixed video format: the packed
    /// four-byte-per-pixel frame.  Media without a shape, or a shape beyond
    /// what a texture can hold, has no unit size here.
    pub fn unit_size(&self, caps: &CapsStructure) -> (r: Option<usize>)
        ensures
            r == spec_unit_size(*caps),
    {
        if matches!(caps.media, crate::caps::MediaType::Video) && 1 <= caps.width && caps.width
            <= crate::texture_memory::MAX_TEXTURE_DIMENSION && 1 <= caps.height && caps.height
            <= crate::texture_memory::MAX_TEXTURE_DIMENSION {
            proof {
                assert(caps.width * caps.height * 4 <= 16384 * 16384 * 4) by (nonlinear_arith)
                    requires
                        1 <= caps.width <= 16384,
                        1 <= caps.height <= 16384,
                ;
            }
            Some((caps.width as usize) * (caps.height as usize) * 4)
        } else {
            None
        }
    }

    /// The allocator-decision step for the stage's output side: keeps only
    /// the proposed allocators that are of the GPU-buffer kind and can serve
    /// writable output, and supplies the stage's own allocator, bound to the
    /// committed mask, when none remains.  Before the format commit the call
    /// fails with `NegotiatedBeforeCommit`.
    pub fn decide_allocation(&self, query: &mut AllocationQuery) -> (r: Result<(), PipelineError>)
        requires
            self.src_usages is Some ==> self.wgpu_context is Some,
        ensures
            self.src_usages is None ==> r == Err::<(), PipelineError>(
                PipelineError::NegotiatedBeforeCommit,
            ) && *final(query) == *old(query),
            final(query).caps == old(query).caps,
            self.src_usages is Some ==> r == Ok::<(), PipelineError>(()) && {
                let req = spec_upload_required_mask();
                if exists|k: int|
                    0 <= k < old(query).params@.len() && spec_buffer_proposal_ok(
                        #[trigger] old(query).params@[k],
                        req,
                        true,
                    ) {
                    final(query).params@.len() > 0 && (forall|k: int|
                        0 <= k < final(query).params@.len() ==> spec_buffer_proposal_ok(
                            #[trigger] final(query).params@[k],
                            req,
                            true,
                        ) && old(query).params@.contains(final(query).params@[k])) && (forall|
                        k: int,
                    |
                        0 <= k < old(query).params@.len() && spec_buffer_proposal_ok(
                            #[trigger] old(query).params@[k],
                            req,
                            true,
                        ) ==> final(query).params@.contains(old(query).params@[k]))
                } else {
                    final(query).params@.len() == 1 && (final(query).params@[0].0 matches ProposedAllocator::WgpuBuffer(a) && a.explicit_usages
                        == self.src_usages && a.context == self.wgpu_context->Some_0
                        && !final(query).params@[0].1.readonly)
                }
            },
    {
        let src_usages = match &self.src_usages {
            Some(u) => *u,
            None => {
                return Err(PipelineError::NegotiatedBeforeCommit);
            },
        };
        let required = BufferUsages {
            map_read: false,
            map_write: true,
            copy_src: false,
            copy_dst: false,
        };
        retain_buffer_proposals(&mut query.params, &required, true);
        if query.params.len() == 0 {
            let ctx = match &self.wgpu_context {
                Some(c) => *c,
                None => {
                    proof {
                        assert(false);
                    }
                    return Err(PipelineError::NegotiatedBeforeCommit);
                },
            };
            let allocator = WgpuMemoryAllocator::new_with_explicit_usage(ctx, src_usages);
            query.params.push(
                (ProposedAllocator::WgpuBuffer(allocator), AllocationParams { readonly: false }),
            );
        }
        Ok(())
    }

    /// The allocator-proposal step for the stage's input side: offers the
    /// stage's own allocator bound to the committed mask, appended to the
    /// query.  Before the format commit the call fails with
    /// `NegotiatedBeforeCommit`.
    pub fn propose_allocation(&self, query: &mut AllocationQuery) -> (r: Result<(), PipelineError>)
        requires
            self.src_usages is Some ==> self.wgpu_context is Some,
        ensures
            final(query).caps == old(query).caps,
            self.src_usages is None ==> r == Err::<(), PipelineError>(
                PipelineError::NegotiatedBeforeCommit,
            ) && *final(query) == *old(query),
            self.src_usages is Some ==> r == Ok::<(), PipelineError>(()) && final(query).params@.len() == old(query).params@.len() + 1 && (forall|k: int|
                0 <= k < old(query).params@.len() ==> final(query).params@[k] == old(query).params@[k]) && (final(query).params@.last().0 matches
                ProposedAllocator::WgpuBuffer(a) && a.explicit_usages == self.src_usages
                && a.context == self.wgpu_context->Some_0 && !final(query).params@.last().1.readonly),
    {
        let src_usages = match &self.src_usages {
            Some(u) => *u,
            None => {
                return Err(PipelineError::NegotiatedBeforeCommit);
            },
        };
        let ctx = match &self.wgpu_context {
            Some(c) => *c,
            None => {
                proof {
                    assert(false);
                }
                return Err(PipelineError::NegotiatedBeforeCommit);
            },
        };
        let allocator = WgpuMemoryAllocator::new_with_explicit_usage(ctx, src_usages);
        query.params.push(
            (ProposedAllocator::WgpuBuffer(allocator), AllocationParams { readonly: false }),
        );
        Ok(())
    }
}

/// The mask the upload stage requires of a proposed output allocator: the
/// write-map bit, so it can fill the buffers it allocates.
pub open spec fn spec_upload_required_mask() -> BufferUsages {
    BufferUsages { map_read: false, map_write: true, copy_src: false, copy_dst: false }
}

/// The unit size of a descriptor: width times height times four bytes per
/// pixel, for shaped media within the texture bound.
pub open spec fn spec_unit_size(caps: CapsStructure) -> Option<usize> {
    if caps.media is Video && 1 <= caps.width <= crate::texture_memory::MAX_TEXTURE_DIMENSION && 1
        <= caps.height <= crate::texture_memory::MAX_TEXTURE_DIMENSION {
        Some((caps.width * caps.height * 4) as usize)
    } else {
        None
    }
}

} // verus!
