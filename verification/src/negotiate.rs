//! What the transform stages share: the memory a buffer hands them, the
//! allocation query they answer, the allocator-filtering step of the
//! negotiation protocol, and the context-adoption step of stage start-up.

use vstd::prelude::*;

use crate::buffer_memory::{AllocationParams, WgpuMemory, WgpuMemoryAllocator};
use crate::context::WgpuContext;
use crate::texture_memory::{WgpuTextureMemory, WgpuTextureMemoryAllocator};
use crate::usages::{BufferUsages, TextureUsages};

verus! {

/// Which side of a stage a negotiation call concerns.
#[derive(Clone, Copy, Debug, PartialEq, Eq, Structural)]
pub enum PadDirection {
    /// The upstream, input side.
    Sink,
    /// The downstream, output side.
    Src,
}

/// The memory backing one buffer a stage receives or fills.  The kind can
/// vary buffer to buffer: upstream may interleave fallback system memory
/// with GPU memory, and memory of a foreign kind must never be treated as
/// either.
#[derive(Clone, Debug)]
pub enum Memory {
    /// Plain host memory holding these bytes.
    System(Vec<u8>),
    /// A GPU linear buffer from this subsystem's allocator.
    WgpuBuffer(WgpuMemory),
    /// A GPU texture from this subsystem's allocator.
    WgpuTexture(WgpuTextureMemory),
    /// Memory of a kind this subsystem does not recognise.
    Foreign,
}

/// Whether the GPU memory inside a buffer is consistent.
pub open spec fn spec_memory_wf(m: Memory) -> bool {
    match m {
        Memory::WgpuBuffer(b) => b.wf(),
        Memory::WgpuTexture(t) => t.wf(),
        _ => true,
    }
}

/// One allocator a neighbour proposes during allocation negotiation.
#[derive(Clone, Copy, Debug)]
pub enum ProposedAllocator {
    /// An allocator of some other memory kind.
    Other,
    /// A GPU buffer allocator of this subsystem.
    WgpuBuffer(WgpuMemoryAllocator),
    /// A GPU texture allocator of this subsystem.
    WgpuTexture(WgpuTextureMemoryAllocator),
}

/// The allocation query a stage answers: the caps the buffers will travel
/// under, and the proposed allocators with their parameters.
#[derive(Clone, Debug)]
pub struct AllocationQuery {
    /// The descriptors the negotiated format fixed.
    pub caps: Vec<crate::caps::CapsStructure>,
    /// The proposed allocators, in proposal order.
    pub params: Vec<(ProposedAllocator, AllocationParams)>,
}

/// Whether a proposed allocator can produce the GPU buffers a stage needs:
/// it must be of the GPU-buffer kind, and a bound mask must cover `required`.
/// An allocator that derives its mask per call is acceptable unless the
/// proposal asks for read-only memory while the stage needs to write.
pub open spec fn spec_buffer_proposal_ok(
    p: (ProposedAllocator, AllocationParams),
    required: BufferUsages,
    reject_readonly_derived: bool,
) -> bool {
    match p.0 {
        ProposedAllocator::WgpuBuffer(a) => match a.explicit_usages {
            Some(u) => u.spec_contains(required),
            None => !(reject_readonly_derived && p.1.readonly),
        },
        _ => false,
    }
}

/// Whether a proposed allocator can produce the GPU textures a stage needs:
/// it must be of the GPU-texture kind with a bound descriptor whose mask
/// covers `required`.
pub open spec fn spec_texture_proposal_ok(
    p: (ProposedAllocator, AllocationParams),
    required: TextureUsages,
) -> bool {
    match p.0 {
        ProposedAllocator::WgpuTexture(a) => a.descriptor.usage.spec_contains(required),
        _ => false,
    }
}

/// The allocator-decision filter for buffer stages: keeps exactly the
/// proposals that can serve the stage's output requirement.
pub fn retain_buffer_proposals(
    params: &mut Vec<(ProposedAllocator, AllocationParams)>,
    required: &BufferUsages,
    reject_readonly_derived: bool,
)
    ensures
        forall|k: int|
            0 <= k < final(params)@.len() ==> spec_buffer_proposal_ok(
                final(params)@[k],
                *required,
                reject_readonly_derived,
            ) && old(params)@.contains(final(params)@[k]),
        forall|k: int|
            0 <= k < old(params)@.len() && spec_buffer_proposal_ok(
                old(params)@[k],
                *required,
                reject_readonly_derived,
            ) ==> final(params)@.contains(old(params)@[k]),
{
    let mut kept: Vec<(ProposedAllocator, AllocationParams)> = Vec::new();
    let mut i: usize = 0;
    while i < params.len()
        invariant
            i <= params@.len(),
            forall|k: int|
                0 <= k < kept@.len() ==> spec_buffer_proposal_ok(
                    kept@[k],
                    *required,
                    reject_readonly_derived,
                ) && params@.contains(kept@[k]),
            forall|k: int|
                0 <= k < i && spec_buffer_proposal_ok(
                    params@[k],
                    *required,
                    reject_readonly_derived,
                ) ==> kept@.contains(params@[k]),
        decreases params@.len() - i,
    {
        let p = params[i];
        let ok = match &p.0 {
            ProposedAllocator::WgpuBuffer(a) => match a.explicit_usages() {
                Some(u) => u.contains(required),
                None => !(reject_readonly_derived && p.1.readonly),
            },
            _ => false,
        };
        if ok {
            let ghost old_kept = kept@;
            kept.push(p);
            proof {
                assert(kept@[kept@.len() - 1] == params@[i as int]);
                assert(params@.contains(params@[i as int]));
                assert(forall|k: int| 0 <= k < old_kept.len() ==> kept@[k] == old_kept[k]);
                assert(forall|x: (ProposedAllocator, AllocationParams)|
                    old_kept.contains(x) ==> kept@.contains(x));
            }
        }
        i = i + 1;
    }
    *params = kept;
}

/// The allocator-decision filter for texture stages: keeps exactly the
/// proposals that can serve the stage's output requirement.
pub fn retain_texture_proposals(
    params: &mut Vec<(ProposedAllocator, AllocationParams)>,
    required: &TextureUsages,
)
    ensures
        forall|k: int|
            0 <= k < final(params)@.len() ==> spec_texture_proposal_ok(final(params)@[k], *required)
                && old(params)@.contains(final(params)@[k]),
        forall|k: int|
            0 <= k < old(params)@.len() && spec_texture_proposal_ok(old(params)@[k], *required)
                ==> final(params)@.contains(old(params)@[k]),
{
    let mut kept: Vec<(ProposedAllocator, AllocationParams)> = Vec::new();
    let mut i: usize = 0;
    while i < params.len()
        invariant
            i <= params@.len(),
            forall|k: int|
                0 <= k < kept@.len() ==> spec_texture_proposal_ok(kept@[k], *required)
                    && params@.contains(kept@[k]),
            forall|k: int|
                0 <= k < i && spec_texture_proposal_ok(params@[k], *required) ==> kept@.contains(
                    params@[k],
                ),
        decreases params@.len() - i,
    {
        let p = params[i];
        let ok = match &p.0 {
            ProposedAllocator::WgpuTexture(a) => a.descriptor().usage.contains(required),
            _ => false,
        };
        if ok {
            let ghost old_kept = kept@;
            kept.push(p);
            proof {
                assert(kept@[kept@.len() - 1] == params@[i as int]);
                assert(params@.contains(params@[i as int]));
                assert(forall|k: int| 0 <= k < old_kept.len() ==> kept@[k] == old_kept[k]);
                assert(forall|x: (ProposedAllocator, AllocationParams)|
                    old_kept.contains(x) ==> kept@.contains(x));
            }
        }
        i = i + 1;
    }
    *params = kept;
}

/// The context a starting stage ends up with: a context it already holds
/// wins, then one found at a neighbour, then the stage's own fresh one.
pub open spec fn spec_adopted_context(
    current: Option<WgpuContext>,
    found: Option<WgpuContext>,
    own: WgpuContext,
) -> WgpuContext {
    match current {
        Some(c) => c,
        None => match found {
            Some(c) => c,
            None => own,
        },
    }
}

/// The context-adoption step of stage start-up: a stage keeps the context it
/// has, else adopts the first one a neighbour shares, else falls back to the
/// fresh context it created.  Returns the context and whether the fresh one
/// was taken — in that case the host must be told the stage now owns a
/// context others may adopt.
pub fn adopt_context(
    current: Option<&WgpuContext>,
    found: Option<&WgpuContext>,
    own: WgpuContext,
) -> (r: (WgpuContext, bool))
    ensures
        r.0 == spec_adopted_context(
            match current {
                Some(c) => Some(*c),
                None => None::<WgpuContext>,
            },
            match found {
                Some(c) => Some(*c),
                None => None::<WgpuContext>,
            },
            own,
        ),
        r.1 == (current is None && found is None),
{
    match current {
        Some(c) => (*c, false),
        None => match found {
            Some(c) => (*c, false),
            None => (own, true),
        },
    }
}

} // verus!
