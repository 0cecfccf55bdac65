//! The texture-to-texture copy stage: both sides carry GPU textures, and the
//! transform is one device copy over the full 2-D extent the two textures
//! share.  Like every texture stage it never passes buffers through.

use vstd::prelude::*;

use crate::buffer_memory::AllocationParams;
use crate::caps::{
    lemma_texture_rewrite_contains, spec_in_texture_rewrite, CapsStructure, CapsUsage,
};
use crate::context::WgpuContext;
use crate::errors::PipelineError;
use crate::negotiate::{
    adopt_context, retain_texture_proposals, spec_adopted_context, spec_texture_proposal_ok,
    AllocationQuery, Memory, PadDirection, ProposedAllocator, spec_memory_wf,
};
use crate::stages::texture_upload::spec_texture_required_mask;
use crate::texture_memory::{
    copy_texture_to_texture, TextureDescriptor, TextureFormat, WgpuTextureMemoryAllocator,
};
use crate::usages::TextureUsages;

verus! {

/// The texture masks the copy stage can accept on its sink side: it must be
/// able to copy out of the incoming texture.
pub open spec fn spec_texture_copy_sink_allowed() -> Seq<TextureUsages> {
    seq![
        TextureUsages {
            copy_src: true,
            copy_dst: false,
            texture_binding: false,
            storage_binding: false,
        },
        TextureUsages {
            copy_src: true,
            copy_dst: true,
            texture_binding: false,
            storage_binding: false,
        },
    ]
}

/// The sink-side masks as a vector.
pub fn texture_copy_sink_allowed_usages() -> (r: Vec<TextureUsages>)
    ensures
        r@ =~= spec_texture_copy_sink_allowed(),
{
    let mut r: Vec<TextureUsages> = Vec::new();
    r.push(
        TextureUsages {
            copy_src: true,
            copy_dst: false,
            texture_binding: false,
            storage_binding: false,
        },
    );
    r.push(
        TextureUsages {
            copy_src: true,
            copy_dst: true,
            texture_binding: false,
            storage_binding: false,
        },
    );
    r
}

/// The texture masks the copy stage can offer on its source side: it must be
/// able to copy into the texture.
pub open spec fn spec_texture_copy_src_allowed() -> Seq<TextureUsages> {
    seq![
        TextureUsages {
            copy_src: false,
            copy_dst: true,
            texture_binding: false,
            storage_binding: false,
        },
        TextureUsages {
            copy_src: true,
            copy_dst: true,
            texture_binding: false,
            storage_binding: false,
        },
    ]
}

/// The source-side masks as a vector.
pub fn texture_copy_src_allowed_usages() -> (r: Vec<TextureUsages>)
    ensures
        r@ =~= spec_texture_copy_src_allowed(),
{
    let mut r: Vec<TextureUsages> = Vec::new();
    r.push(
        TextureUsages {
            copy_src: false,
            copy_dst: true,
            texture_binding: false,
            storage_binding: false,
        },
    );
    r.push(
        TextureUsages {
            copy_src: true,
            copy_dst: true,
            texture_binding: false,
            storage_binding: false,
        },
    );
    r
}

/// Whether `s` may stand in the copy stage's offer for the given direction:
/// toward upstream the candidates carry the masks the stage can read from,
/// toward downstream the masks it can write into.
pub open spec fn spec_texture_copy_offer_member(
    direction: PadDirection,
    caps: Seq<CapsStructure>,
    s: CapsStructure,
) -> bool {
    match direction {
        PadDirection::Src => spec_in_texture_rewrite(caps, spec_texture_copy_sink_allowed(), s),
        PadDirection::Sink => spec_in_texture_rewrite(caps, spec_texture_copy_src_allowed(), s),
    }
}

/// The outcome of the copy stage's format commit: the output descriptor must
/// offer a texture the stage can copy into, the input descriptor one it can
/// copy from.
pub open spec fn spec_texture_copy_set_caps_result(
    incaps: Seq<CapsStructure>,
    outcaps: Seq<CapsStructure>,
) -> Result<(), PipelineError> {
    if outcaps.len() == 0 {
        Err(PipelineError::MalformedDescriptor)
    } else {
        match outcaps[0].usage {
            CapsUsage::Texture(ou) => if !ou.copy_dst {
                Err(PipelineError::CapabilityMissing)
            } else if incaps.len() == 0 {
                Err(PipelineError::MalformedDescriptor)
            } else {
                match incaps[0].usage {
                    CapsUsage::Texture(iu) => if !iu.copy_src {
                        Err(PipelineError::CapabilityMissing)
                    } else {
                        Ok(())
                    },
                    _ => Err(PipelineError::MalformedDescriptor),
                }
            },
            _ => Err(PipelineError::MalformedDescriptor),
        }
    }
}

/// The texture-to-texture copy stage.
#[derive(Clone, Debug)]
pub struct WgpuTextureCopy {
    /// The shared device context, once adopted or created.
    pub wgpu_context: Option<WgpuContext>,
    /// The committed input-side texture mask; `None` until caps are fixed.
    pub sink_usages: Option<TextureUsages>,
    /// The committed output-side texture mask; `None` until caps are fixed.
    pub src_usages: Option<TextureUsages>,
}

impl WgpuTextureCopy {
    /// A fresh stage: no context, nothing negotiated.
    pub fn new() -> (r: Self)
        ensures
            r.wgpu_context is None,
            r.sink_usages is None,
            r.src_usages is None,
    {
        WgpuTextureCopy { wgpu_context: None, sink_usages: None, src_usages: None }
    }

    /// Records the shared context.  The first context wins.
    pub fn set_wgpu_context(&mut self, context: WgpuContext)
        ensures
            final(self).wgpu_context == (if old(self).wgpu_context is Some {
                old(self).wgpu_context
            } else {
                Some(context)
            }),
            final(self).sink_usages == old(self).sink_usages,
            final(self).src_usages == old(self).src_usages,
    {
        if self.wgpu_context.is_none() {
            self.wgpu_context = Some(context);
        }
    }

    /// Starts the stage: adopts a neighbour's context when one was found,
    /// else keeps `own`.  Returns true when `own` was taken and must be
    /// published.
    pub fn start(&mut self, found: Option<&WgpuContext>, own: WgpuContext) -> (created: bool)
        ensures
            final(self).wgpu_context == Some(
                spec_adopted_context(
                    old(self).wgpu_context,
                    match found {
                        Some(c) => Some(*c),
                        None => None::<WgpuContext>,
                    },
                    own,
                ),
            ),
            created == (old(self).wgpu_context is None && found is None),
            final(self).sink_usages == old(self).sink_usages,
            final(self).src_usages == old(self).src_usages,
    {
        let (ctx, created) = adopt_context(self.wgpu_context.as_ref(), found, own);
        self.wgpu_context = Some(ctx);
        created
    }

    /// The offer-rewriting step: texture offers on both sides, with the
    /// masks swapped by direction, intersected with the host's filter when
    /// one is given.
    pub fn transform_caps(
        &self,
        direction: PadDirection,
        caps: &Vec<CapsStructure>,
        filter: Option<&Vec<CapsStructure>>,
    ) -> (r: Vec<CapsStructure>)
        ensures
            forall|k: int|
                0 <= k < r@.len() ==> spec_texture_copy_offer_member(direction, caps@, r@[k]),
            filter matches Some(f) ==> forall|k: int| 0 <= k < r@.len() ==> f@.contains(r@[k]),
            filter is None ==> forall|x: CapsStructure|
                spec_texture_copy_offer_member(direction, caps@, x) ==> r@.contains(x),
            filter matches Some(f) ==> forall|k: int|
                0 <= k < f@.len() && spec_texture_copy_offer_member(direction, caps@, f@[k])
                    ==> r@.contains(f@[k]),
    {
        let other_caps = match direction {
            PadDirection::Src => {
                let allowed = texture_copy_sink_allowed_usages();
                crate::caps::gst_caps_with_texture_usages(caps, &allowed)
            },
            PadDirection::Sink => {
                let allowed = texture_copy_src_allowed_usages();
                crate::caps::gst_caps_with_texture_usages(caps, &allowed)
            },
        };
        proof {
            assert forall|x: CapsStructure|
                spec_texture_copy_offer_member(direction, caps@, x) implies other_caps@.contains(
                x,
            ) by {
                match direction {
                    PadDirection::Src => {
                        lemma_texture_rewrite_contains(
                            caps@,
                            spec_texture_copy_sink_allowed(),
                            other_caps@,
                            x,
                        );
                    },
                    PadDirection::Sink => {
                        lemma_texture_rewrite_contains(
                            caps@,
                            spec_texture_copy_src_allowed(),
                            other_caps@,
                            x,
                        );
                    },
                }
            }
        }
        match filter {
            Some(f) => crate::caps::caps_intersect_first(f, &other_caps),
            None => other_caps,
        }
    }

    /// The format-commit step: the output descriptor must offer a texture
    /// the stage can copy into, the input descriptor one it can copy from.
    /// Both masks are recorded.
    pub fn set_caps(&mut self, incaps: &Vec<CapsStructure>, outcaps: &Vec<CapsStructure>) -> (r:
        Result<(), PipelineError>)
        ensures
            final(self).wgpu_context == old(self).wgpu_context,
            r == spec_texture_copy_set_caps_result(incaps@, outcaps@),
            r is Ok ==> final(self).src_usages == Some(outcaps@[0].usage->Texture_0) && final(self).sink_usages == Some(incaps@[0].usage->Texture_0),
            r is Err ==> final(self).src_usages == old(self).src_usages && final(self).sink_usages
                == old(self).sink_usages,
    {
        if outcaps.len() == 0 {
            return Err(PipelineError::MalformedDescriptor);
        }
        let ou = match outcaps[0].usage {
            CapsUsage::Texture(ou) => ou,
            _ => {
                return Err(PipelineError::MalformedDescriptor);
            },
        };
        if !ou.copy_dst {
            return Err(PipelineError::CapabilityMissing);
        }
        if incaps.len() == 0 {
            return Err(PipelineError::MalformedDescriptor);
        }
        let iu = match incaps[0].usage {
            CapsUsage::Texture(iu) => iu,
            _ => {
                return Err(PipelineError::MalformedDescriptor);
            },
        };
        if !iu.copy_src {
            return Err(PipelineError::CapabilityMissing);
        }
        self.src_usages = Some(ou);
        self.sink_usages = Some(iu);
        Ok(())
    }

    /// The copy path: one device copy of the whole incoming texture into the
    /// output texture, which must share its extent and format.  Anything but
    /// a readable GPU texture going into a writable GPU texture of the same
    /// shape fails with `NotNegotiated` and changes nothing.
    pub fn transform(&self, inbuf: &Memory, outmem: &mut Memory) -> (r: Result<(), PipelineError>)
        requires
            spec_memory_wf(*inbuf),
            spec_memory_wf(*old(outmem)),
            match (*inbuf, *old(outmem)) {
                (Memory::WgpuTexture(a), Memory::WgpuTexture(t)) => a.context.id == t.context.id,
                _ => true,
            },
        ensures
            spec_memory_wf(*final(outmem)),
            match (*inbuf, *old(outmem)) {
                (Memory::WgpuTexture(a), Memory::WgpuTexture(t)) => if a.descriptor.usage.copy_src
                    && t.descriptor.usage.copy_dst && a.descriptor.width == t.descriptor.width
                    && a.descriptor.height == t.descriptor.height && a.descriptor.format
                    == t.descriptor.format {
                    r == Ok::<(), PipelineError>(()) && (*final(outmem) matches
                    Memory::WgpuTexture(t2) && t2.data@ == a.data@ && t2.descriptor == t.descriptor
                        && t2.context == t.context)
                } else {
                    r == Err::<(), PipelineError>(PipelineError::NotNegotiated) && *final(outmem)
                        == *old(outmem)
                },
                _ => r == Err::<(), PipelineError>(PipelineError::NotNegotiated) && *final(outmem)
                    == *old(outmem),
            },
    {
        let src = match inbuf {
            Memory::WgpuTexture(a) => a,
            _ => {
                return Err(PipelineError::NotNegotiated);
            },
        };
        let dst = match outmem {
            Memory::WgpuTexture(t) => t,
            _ => {
                return Err(PipelineError::NotNegotiated);
            },
        };
        if !src.descriptor().usage.copy_src {
            return Err(PipelineError::NotNegotiated);
        }
        if !dst.descriptor().usage.copy_dst {
            return Err(PipelineError::NotNegotiated);
        }
        if src.descriptor().width != dst.descriptor().width || src.descriptor().height
            != dst.descriptor().height {
            return Err(PipelineError::NotNegotiated);
        }
        if !matches!(
            (src.descriptor().format, dst.descriptor().format),
            (TextureFormat::Rgba8Unorm, TextureFormat::Rgba8Unorm),
        ) {
            return Err(PipelineError::NotNegotiated);
        }
        let width = src.descriptor().width;
        let height = src.descriptor().height;
        copy_texture_to_texture(src, dst, width, height);
        Ok(())
    }

    /// The allocator-decision step for the stage's output side: keeps only
    /// the proposed texture allocators the stage can copy into, and when
    /// none remains builds its own allocator from the committed mask and the
    /// shape the query's caps carry.  Before the format commit the call
    /// fails with `NegotiatedBeforeCommit`; a query without caps when the
    /// fallback is needed fails with `MalformedDescriptor`.
    pub fn decide_allocation(&self, query: &mut AllocationQuery) -> (r: Result<(), PipelineError>)
        requires
            self.src_usages is Some ==> self.wgpu_context is Some,
        ensures
            final(query).caps == old(query).caps,
            self.src_usages is None ==> r == Err::<(), PipelineError>(
                PipelineError::NegotiatedBeforeCommit,
            ) && *final(query) == *old(query),
            match self.src_usages {
                Some(u) => {
                    let req = spec_texture_required_mask();
                    if exists|k: int|
                        0 <= k < old(query).params@.len() && spec_texture_proposal_ok(
                            #[trigger] old(query).params@[k],
                            req,
                        ) {
                        r == Ok::<(), PipelineError>(()) && final(query).params@.len() > 0 && (
                        forall|k: int|
                            0 <= k < final(query).params@.len() ==> spec_texture_proposal_ok(
                                #[trigger] final(query).params@[k],
                                req,
                            ) && old(query).params@.contains(final(query).params@[k])) && (forall|
                            k: int,
                        |
                            0 <= k < old(query).params@.len() && spec_texture_proposal_ok(
                                #[trigger] old(query).params@[k],
                                req,
                            ) ==> final(query).params@.contains(old(query).params@[k]))
                    } else if old(query).caps@.len() == 0 {
                        r == Err::<(), PipelineError>(PipelineError::MalformedDescriptor) && final(query).params@.len() == 0
                    } else {
                        r == Ok::<(), PipelineError>(()) && final(query).params@.len() == 1 && (
                        final(query).params@[0].0 matches ProposedAllocator::WgpuTexture(a)
                            && a.descriptor == (TextureDescriptor {
                            width: old(query).caps@[0].width,
                            height: old(query).caps@[0].height,
                            format: TextureFormat::Rgba8Unorm,
                            usage: u,
                        }) && a.context == self.wgpu_context->Some_0)
                    }
                },
                None => true,
            },
    {
        let src_usages = match &self.src_usages {
            Some(u) => *u,
            None => {
                return Err(PipelineError::NegotiatedBeforeCommit);
            },
        };
        let required = TextureUsages {
            copy_src: false,
            copy_dst: true,
            texture_binding: false,
            storage_binding: false,
        };
        retain_texture_proposals(&mut query.params, &required);
        if query.params.len() == 0 {
            if query.caps.len() == 0 {
                return Err(PipelineError::MalformedDescriptor);
            }
            let ctx = match &self.wgpu_context {
                Some(c) => *c,
                None => {
                    proof {
                        assert(false);
                    }
                    return Err(PipelineError::NegotiatedBeforeCommit);
                },
            };
            let descriptor = TextureDescriptor {
                width: query.caps[0].width,
                height: query.caps[0].height,
                format: TextureFormat::Rgba8Unorm,
                usage: src_usages,
            };
            let allocator = WgpuTextureMemoryAllocator::new(ctx, descriptor);
            query.params.push(
                (ProposedAllocator::WgpuTexture(allocator), AllocationParams { readonly: false }),
            );
        }
        Ok(())
    }
}

} // verus!
