//! The general properties the subsystem promises, stated once and proved
//! from the same specification functions the executable contracts use.

use vstd::prelude::*;

use crate::buffer_memory::{
    spec_alloc_usage, spec_copy_into, spec_map_completes, spec_map_grant, spec_map_step,
    spec_read_grant, spec_unmap_step, spec_write_grant, spec_write_through_view, MapEvent, MapMode,
    WgpuMemory,
};
use crate::caps::{spec_with_texture_usage, CapsStructure, CapsUsage};
use crate::negotiate::{Memory, PadDirection};
use crate::stages::download::spec_download_passthrough;
use crate::stages::texture_copy::{
    spec_texture_copy_offer_member, spec_texture_copy_sink_allowed,
};
use crate::stages::upload::spec_upload_passthrough;
use crate::usages::{BufferUsages, TextureUsages};

verus! {

/// An allocation under explicit mask `M` carries exactly `M`, and a map
/// request against it is granted precisely when the mode's required bit is
/// in `M` — with the one documented escape: a read-map request against a
/// write-map-only mask is granted the write view.  A mask with neither
/// host-map bit grants nothing, so mapping fails with `CapabilityMissing`.
pub proof fn lemma_allocate_then_map(mask: BufferUsages, readonly: bool)
    ensures
        spec_alloc_usage(Some(mask), readonly) == mask,
        spec_write_grant(mask) is Some <==> mask.map_write,
        spec_read_grant(mask) is Some <==> (mask.map_read || mask.map_write),
        mask.map_read ==> spec_read_grant(mask) == Some(MapMode::Read),
        !mask.map_read && mask.map_write ==> spec_read_grant(mask) == Some(MapMode::Write),
{
}

/// A map request that found the completion installs the granted view, and a
/// request refused for a missing capability reports `CapabilityMissing` and
/// leaves the object exactly as it was.
pub proof fn lemma_map_outcome(
    m: WgpuMemory,
    mode: MapMode,
    len: usize,
    events: Seq<MapEvent>,
    timeout_rounds: u64,
)
    requires
        m.view is None,
        spec_map_completes(m.context.poll_type, events, timeout_rounds),
    ensures
        spec_map_grant(m.usage, mode) matches Some(g) ==> spec_map_step(
            m,
            mode,
            len,
            events,
            timeout_rounds,
        ).1 == Ok::<MapMode, crate::errors::PipelineError>(g),
        spec_map_grant(m.usage, mode) is None ==> spec_map_step(
            m,
            mode,
            len,
            events,
            timeout_rounds,
        ) == (m, Err::<MapMode, crate::errors::PipelineError>(
            crate::errors::PipelineError::CapabilityMissing,
        )),
{
}

/// At most one live view ever exists: a second map before the intervening
/// unmap fails with `AlreadyMapped` and leaves the object — its one existing
/// view included — exactly as it was.
pub proof fn lemma_second_map_fails(
    m: WgpuMemory,
    mode1: MapMode,
    len1: usize,
    events1: Seq<MapEvent>,
    t1: u64,
    mode2: MapMode,
    len2: usize,
    events2: Seq<MapEvent>,
    t2: u64,
)
    requires
        spec_map_step(m, mode1, len1, events1, t1).1 is Ok,
    ensures
        ({
            let m1 = spec_map_step(m, mode1, len1, events1, t1).0;
            spec_map_step(m1, mode2, len2, events2, t2) == (m1, Err::<
                MapMode,
                crate::errors::PipelineError,
            >(crate::errors::PipelineError::AlreadyMapped))
        }),
{
}

/// Unmap after unmap is a defined no-op: dropping the view is idempotent,
/// and never touches the bytes, the mask or the context.
pub proof fn lemma_unmap_idempotent(m: WgpuMemory)
    ensures
        spec_unmap_step(spec_unmap_step(m)) == spec_unmap_step(m),
        spec_unmap_step(m).data == m.data,
        spec_unmap_step(m).usage == m.usage,
        spec_unmap_step(m).context == m.context,
        spec_unmap_step(m).view is None,
{
}

/// The round trip of host data through the subsystem is the identity:
/// uploading `n` bytes into a GPU buffer of size `n` (a write through a full
/// view), copying that buffer device-side into a second buffer of size `n`,
/// and reading the second buffer back through a full view yields the
/// original bytes unchanged.
pub proof fn lemma_upload_copy_download_roundtrip(host: Seq<u8>, gpu1: Seq<u8>, gpu2: Seq<u8>)
    requires
        gpu1.len() == host.len(),
        gpu2.len() == host.len(),
    ensures
        ({
            let uploaded = spec_write_through_view(gpu1, gpu1.len() as int, host);
            let copied = spec_copy_into(gpu2, uploaded);
            copied.take(host.len() as int) == host
        }),
{
    let n = host.len() as int;
    let uploaded = spec_write_through_view(gpu1, gpu1.len() as int, host);
    assert(uploaded =~= host);
    let copied = spec_copy_into(gpu2, uploaded);
    assert(copied.take(n) =~= host);
}

/// Pass-through idempotence for the upload stage.  The per-buffer check
/// sets the mode to a function of the incoming memory alone and reports a
/// change exactly when the mode flipped; so after one check, every further
/// check on memory of the same kind keeps the mode and reports no change —
/// no extra device copy is ever introduced.
pub proof fn lemma_upload_passthrough_idempotent(inmem: Memory)
    ensures
        ({
            let mode_after_first = spec_upload_passthrough(inmem);
            let changed_by_second = mode_after_first != spec_upload_passthrough(inmem);
            !changed_by_second
        }),
{
}

/// Pass-through idempotence for the download stage, whose per-buffer check
/// reads the incoming buffer's own capability mask: repeated checks on the
/// same memory keep the mode and report no change.
pub proof fn lemma_download_passthrough_idempotent(inmem: Memory)
    ensures
        ({
            let mode_after_first = spec_download_passthrough(inmem);
            let changed_by_second = mode_after_first != spec_download_passthrough(inmem);
            !changed_by_second
        }),
{
}

/// Negotiation symmetry on the copy stage: rewrite a descriptor `d` for one
/// side, and rewriting any descriptor `e` of that offer back for the other
/// side reproduces a descriptor with `d`'s media and shape whose mask has
/// both copy bits — compatible with every capability the copy stage asks of
/// `d`'s side.
pub proof fn lemma_texture_copy_negotiation_symmetry(d: CapsStructure, e: CapsStructure)
    requires
        spec_texture_copy_offer_member(PadDirection::Sink, seq![d], e),
    ensures
        exists|f: CapsStructure|
            {
                &&& #[trigger] spec_texture_copy_offer_member(PadDirection::Src, seq![e], f)
                &&& f.media == d.media
                &&& f.width == d.width
                &&& f.height == d.height
                &&& f.usage matches CapsUsage::Texture(u) && u.copy_src && u.copy_dst
            },
{
    let both = TextureUsages {
        copy_src: true,
        copy_dst: true,
        texture_binding: false,
        storage_binding: false,
    };
    let f = spec_with_texture_usage(e, both);
    assert(seq![e][0] == e);
    assert(spec_texture_copy_sink_allowed()[1] == both);
    assert(spec_texture_copy_offer_member(PadDirection::Src, seq![e], f));
    let (i, j) = choose|i: int, j: int|
        0 <= i < seq![d].len() && 0 <= j < crate::stages::texture_copy::spec_texture_copy_src_allowed().len()
            && e == spec_with_texture_usage(
            seq![d][i],
            crate::stages::texture_copy::spec_texture_copy_src_allowed()[j],
        );
    assert(e.media == d.media && e.width == d.width && e.height == d.height);
    assert(f.media == d.media && f.width == d.width && f.height == d.height);
}

} // verus!
