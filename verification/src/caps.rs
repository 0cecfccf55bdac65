//! Capability descriptors and the rewriting steps of format negotiation.
//!
//! A descriptor is one media structure plus the memory feature and usage
//! field the GPU stages add to it.  During negotiation a stage takes the
//! candidate descriptors from one side and produces, for the other side,
//! every combination of those candidates with the usage masks it can serve —
//! the host then intersects the offer with its own filter and picks one.

use vstd::prelude::*;

use crate::usages::{BufferUsages, TextureUsages};

verus! {

/// The media class a descriptor belongs to.
#[derive(Clone, Copy, Debug, PartialEq, Eq, Structural)]
pub enum MediaType {
    /// A raw audio stream; it has no 2-D shape.
    Audio,
    /// A raw video stream with a 2-D shape.
    Video,
}

/// The memory feature of a descriptor: which kind of memory the buffers
/// travelling under it are backed by.
#[derive(Clone, Copy, Debug, PartialEq, Eq, Structural)]
pub enum MemoryFeature {
    /// Plain host memory.
    SystemMemory,
    /// A GPU linear buffer from this subsystem's allocator.
    WgpuBuffer,
    /// A GPU texture from this subsystem's allocator.
    WgpuTexture,
}

/// The capability field of a descriptor.  A GPU descriptor must carry the
/// mask matching its memory kind; a descriptor without one is malformed for
/// any stage that needs the mask.
#[derive(Clone, Copy, Debug, PartialEq, Eq, Structural)]
pub enum CapsUsage {
    /// No capability field is present.
    Missing,
    /// The buffer-usage field.
    Buffer(BufferUsages),
    /// The texture-usage field.
    Texture(TextureUsages),
}

/// One capability descriptor: a media structure with its shape, the memory
/// feature, and the usage field.
#[derive(Clone, Copy, Debug, PartialEq, Eq, Structural)]
pub struct CapsStructure {
    /// The media class.
    pub media: MediaType,
    /// Frame width in pixels; zero for media without a shape.
    pub width: u32,
    /// Frame height in pixels; zero for media without a shape.
    pub height: u32,
    /// The memory kind buffers under this descriptor are backed by.
    pub feature: MemoryFeature,
    /// The capability field, if present.
    pub usage: CapsUsage,
}

/// The descriptor rewritten to offer a GPU buffer under mask `u`: the
/// feature becomes the GPU-buffer kind and the usage field is replaced.
pub open spec fn spec_with_buffer_usage(s: CapsStructure, u: BufferUsages) -> CapsStructure {
    CapsStructure { feature: MemoryFeature::WgpuBuffer, usage: CapsUsage::Buffer(u), ..s }
}

/// The descriptor rewritten to offer a GPU texture under mask `u`.
pub open spec fn spec_with_texture_usage(s: CapsStructure, u: TextureUsages) -> CapsStructure {
    CapsStructure { feature: MemoryFeature::WgpuTexture, usage: CapsUsage::Texture(u), ..s }
}

/// The descriptor rewritten for plain host memory: the GPU usage field is
/// stripped along with the feature.
pub open spec fn spec_to_system_memory(s: CapsStructure) -> CapsStructure {
    CapsStructure { feature: MemoryFeature::SystemMemory, usage: CapsUsage::Missing, ..s }
}

/// Whether `s` is one of the buffer-usage rewrites of `input` by `usages`.
pub open spec fn spec_in_buffer_rewrite(
    input: Seq<CapsStructure>,
    usages: Seq<BufferUsages>,
    s: CapsStructure,
) -> bool {
    exists|i: int, j: int|
        0 <= i < input.len() && 0 <= j < usages.len() && s == spec_with_buffer_usage(
            input[i],
            usages[j],
        )
}

/// Whether `s` is one of the texture-usage rewrites of `input` by `usages`.
pub open spec fn spec_in_texture_rewrite(
    input: Seq<CapsStructure>,
    usages: Seq<TextureUsages>,
    s: CapsStructure,
) -> bool {
    exists|i: int, j: int|
        0 <= i < input.len() && 0 <= j < usages.len() && s == spec_with_texture_usage(
            input[i],
            usages[j],
        )
}


/// Row-major index bound: entry `(a, b)` of a table with `m` columns sits
/// before row `i` whenever `a < i`.
proof fn lemma_row_index_in_range(a: int, b: int, i: int, m: int)
    requires
        0 <= a < i,
        0 <= b < m,
    ensures
        0 <= a * m + b <= i * m - 1,
{
    assert(0 <= a * m + b <= i * m - 1) by (nonlinear_arith)
        requires
            0 <= a < i,
            0 <= b < m,
    ;
}

/// Copies the candidate descriptors once per offered buffer mask: structure
/// `i` of the input appears as entries `i·m .. i·m+m` of the result, one for
/// each of the `m` masks, rewritten to the GPU-buffer feature.
pub fn make_wgpu_buffer_usages_for_caps(
    input: &Vec<CapsStructure>,
    usages: &Vec<BufferUsages>,
) -> (r: Vec<CapsStructure>)
    ensures
        r@.len() == input@.len() * usages@.len(),
        forall|i: int, j: int|
            0 <= i < input@.len() && 0 <= j < usages@.len() ==> r@[i * usages@.len() + j]
                == spec_with_buffer_usage(input@[i], usages@[j]),
        forall|k: int| 0 <= k < r@.len() ==> spec_in_buffer_rewrite(input@, usages@, r@[k]),
{
    let m = usages.len();
    let mut r: Vec<CapsStructure> = Vec::new();
    let mut i: usize = 0;
    while i < input.len()
        invariant
            m == usages@.len(),
            i <= input@.len(),
            r@.len() == i * m,
            forall|a: int, b: int|
                0 <= a < i && 0 <= b < m ==> r@[a * m + b] == spec_with_buffer_usage(
                    input@[a],
                    usages@[b],
                ),
            forall|k: int| 0 <= k < r@.len() ==> spec_in_buffer_rewrite(input@, usages@, r@[k]),
        decreases input@.len() - i,
    {
        let s = input[i];
        let mut j: usize = 0;
        while j < m
            invariant
                m == usages@.len(),
                i < input@.len(),
                j <= m,
                s == input@[i as int],
                r@.len() == i * m + j,
                forall|a: int, b: int|
                    0 <= a < i && 0 <= b < m ==> r@[a * m + b] == spec_with_buffer_usage(
                        input@[a],
                        usages@[b],
                    ),
                forall|b: int|
                    0 <= b < j ==> r@[i * m + b] == spec_with_buffer_usage(
                        input@[i as int],
                        usages@[b],
                    ),
                forall|k: int| 0 <= k < r@.len() ==> spec_in_buffer_rewrite(input@, usages@, r@[k]),
            decreases m - j,
        {
            let u = usages[j];
            r.push(
                CapsStructure {
                    feature: MemoryFeature::WgpuBuffer,
                    usage: CapsUsage::Buffer(u),
                    ..s
                },
            );
            proof {
                assert(0 <= i < input@.len() && 0 <= j < usages@.len() && r@[i * m + j]
                    == spec_with_buffer_usage(input@[i as int], usages@[j as int]));
                assert forall|a: int, b: int| 0 <= a < i && 0 <= b < m implies r@[a * m + b]
                    == spec_with_buffer_usage(input@[a], usages@[b]) by {
                    lemma_row_index_in_range(a, b, i as int, m as int);
                }
            }
            j = j + 1;
        }
        proof {
            assert(i * m + m == (i + 1) * m) by (nonlinear_arith);
        }
        i = i + 1;
    }
    r
}

/// Rewrites the candidate descriptors to GPU-buffer offers, stripping any
/// texture usage field they carried: the result is the same cross product as
/// [`make_wgpu_buffer_usages_for_caps`], whose usage field replaces whatever
/// was there.
pub fn gst_caps_with_buffer_usages(caps: &Vec<CapsStructure>, usages: &Vec<BufferUsages>) -> (r:
    Vec<CapsStructure>)
    ensures
        r@.len() == caps@.len() * usages@.len(),
        forall|i: int, j: int|
            0 <= i < caps@.len() && 0 <= j < usages@.len() ==> r@[i * usages@.len() + j]
                == spec_with_buffer_usage(caps@[i], usages@[j]),
        forall|k: int| 0 <= k < r@.len() ==> spec_in_buffer_rewrite(caps@, usages@, r@[k]),
{
    make_wgpu_buffer_usages_for_caps(caps, usages)
}

/// Rewrites the candidate descriptors to GPU-texture offers, stripping any
/// buffer usage field they carried: structure `i` of the input appears once
/// per offered texture mask, rewritten to the GPU-texture feature.
pub fn gst_caps_with_texture_usages(caps: &Vec<CapsStructure>, usages: &Vec<TextureUsages>) -> (r:
    Vec<CapsStructure>)
    ensures
        r@.len() == caps@.len() * usages@.len(),
        forall|i: int, j: int|
            0 <= i < caps@.len() && 0 <= j < usages@.len() ==> r@[i * usages@.len() + j]
                == spec_with_texture_usage(caps@[i], usages@[j]),
        forall|k: int| 0 <= k < r@.len() ==> spec_in_texture_rewrite(caps@, usages@, r@[k]),
{
    let m = usages.len();
    let mut r: Vec<CapsStructure> = Vec::new();
    let mut i: usize = 0;
    while i < caps.len()
        invariant
            m == usages@.len(),
            i <= caps@.len(),
            r@.len() == i * m,
            forall|a: int, b: int|
                0 <= a < i && 0 <= b < m ==> r@[a * m + b] == spec_with_texture_usage(
                    caps@[a],
                    usages@[b],
                ),
            forall|k: int| 0 <= k < r@.len() ==> spec_in_texture_rewrite(caps@, usages@, r@[k]),
        decreases caps@.len() - i,
    {
        let s = caps[i];
        let mut j: usize = 0;
        while j < m
            invariant
                m == usages@.len(),
                i < caps@.len(),
                j <= m,
                s == caps@[i as int],
                r@.len() == i * m + j,
                forall|a: int, b: int|
                    0 <= a < i && 0 <= b < m ==> r@[a * m + b] == spec_with_texture_usage(
                        caps@[a],
                        usages@[b],
                    ),
                forall|b: int|
                    0 <= b < j ==> r@[i * m + b] == spec_with_texture_usage(
                        caps@[i as int],
                        usages@[b],
                    ),
                forall|k: int| 0 <= k < r@.len() ==> spec_in_texture_rewrite(caps@, usages@, r@[k]),
            decreases m - j,
        {
            let u = usages[j];
            r.push(
                CapsStructure {
                    feature: MemoryFeature::WgpuTexture,
                    usage: CapsUsage::Texture(u),
                    ..s
                },
            );
            proof {
                assert(0 <= i < caps@.len() && 0 <= j < usages@.len() && r@[i * m + j]
                    == spec_with_texture_usage(caps@[i as int], usages@[j as int]));
                assert forall|a: int, b: int| 0 <= a < i && 0 <= b < m implies r@[a * m + b]
                    == spec_with_texture_usage(caps@[a], usages@[b]) by {
                    lemma_row_index_in_range(a, b, i as int, m as int);
                }
            }
            j = j + 1;
        }
        proof {
            assert(i * m + m == (i + 1) * m) by (nonlinear_arith);
        }
        i = i + 1;
    }
    r
}

/// Rewrites the candidate descriptors for plain host memory: the feature and
/// the GPU usage field are stripped, shape and media kept.
pub fn caps_to_system_memory(caps: &Vec<CapsStructure>) -> (r: Vec<CapsStructure>)
    ensures
        r@.len() == caps@.len(),
        forall|i: int| 0 <= i < caps@.len() ==> r@[i] == spec_to_system_memory(caps@[i]),
{
    let mut r: Vec<CapsStructure> = Vec::new();
    let mut i: usize = 0;
    while i < caps.len()
        invariant
            i <= caps@.len(),
            r@.len() == i,
            forall|k: int| 0 <= k < i ==> r@[k] == spec_to_system_memory(caps@[k]),
        decreases caps@.len() - i,
    {
        let s = caps[i];
        r.push(
            CapsStructure { feature: MemoryFeature::SystemMemory, usage: CapsUsage::Missing, ..s },
        );
        i = i + 1;
    }
    r
}

/// Whether the descriptor set contains `s`.
pub fn caps_contains(caps: &Vec<CapsStructure>, s: &CapsStructure) -> (r: bool)
    ensures
        r == caps@.contains(*s),
{
    let mut i: usize = 0;
    while i < caps.len()
        invariant
            i <= caps@.len(),
            forall|k: int| 0 <= k < i ==> caps@[k] != *s,
        decreases caps@.len() - i,
    {
        if caps[i] == *s {
            return true;
        }
        i = i + 1;
    }
    false
}

/// Whether a descriptor survives an intersection with the given offer.
pub open spec fn spec_kept_in(other: Seq<CapsStructure>) -> spec_fn(CapsStructure) -> bool {
    |s: CapsStructure| other.contains(s)
}

/// Intersects an offer with the host's filter, keeping the filter's order:
/// the result is exactly the filter with every entry that does not stand in
/// the offer removed.
pub fn caps_intersect_first(filter: &Vec<CapsStructure>, other: &Vec<CapsStructure>) -> (r: Vec<
    CapsStructure,
>)
    ensures
        r@ == filter@.filter(spec_kept_in(other@)),
        forall|k: int| 0 <= k < r@.len() ==> filter@.contains(r@[k]) && other@.contains(r@[k]),
        forall|k: int|
            0 <= k < filter@.len() && other@.contains(filter@[k]) ==> r@.contains(filter@[k]),
{
    let ghost pred = spec_kept_in(other@);
    let mut r: Vec<CapsStructure> = Vec::new();
    proof {
        reveal(Seq::filter);
        assert(filter@.take(0) =~= Seq::<CapsStructure>::empty());
        assert(r@ =~= filter@.take(0).filter(pred));
    }
    let mut i: usize = 0;
    while i < filter.len()
        invariant
            i <= filter@.len(),
            pred == spec_kept_in(other@),
            r@ == filter@.take(i as int).filter(pred),
            forall|k: int| 0 <= k < r@.len() ==> filter@.contains(r@[k]) && other@.contains(r@[k]),
            forall|k: int|
                0 <= k < i && other@.contains(filter@[k]) ==> r@.contains(filter@[k]),
        decreases filter@.len() - i,
    {
        let s = filter[i];
        let keep = caps_contains(other, &s);
        proof {
            reveal(Seq::filter);
            assert(filter@.take(i + 1).drop_last() =~= filter@.take(i as int));
            assert(filter@.take(i + 1).last() == filter@[i as int]);
        }
        if keep {
            let ghost old_r = r@;
            r.push(s);
            proof {
                assert(r@ =~= old_r.push(s));
                assert(r@[r@.len() - 1] == s);
                assert(filter@.contains(s)) by {
                    assert(filter@[i as int] == s);
                }
                assert(forall|k: int| 0 <= k < old_r.len() ==> r@[k] == old_r[k]);
                assert(forall|x: CapsStructure| old_r.contains(x) ==> r@.contains(x)) by {
                    assert(forall|k: int| 0 <= k < old_r.len() ==> r@[k] == old_r[k]);
                }
            }
        }
        i = i + 1;
    }
    proof {
        assert(filter@.take(filter@.len() as int) =~= filter@);
    }
    r
}


/// Whether `s` is the host-memory rewrite of one of the `caps` entries.
pub open spec fn spec_in_system_rewrite(caps: Seq<CapsStructure>, s: CapsStructure) -> bool {
    exists|i: int| 0 <= i < caps.len() && s == spec_to_system_memory(caps[i])
}

/// A descriptor known to be a buffer-usage rewrite stands in the rewritten
/// set itself.
pub proof fn lemma_buffer_rewrite_contains(
    input: Seq<CapsStructure>,
    usages: Seq<BufferUsages>,
    r: Seq<CapsStructure>,
    s: CapsStructure,
)
    requires
        r.len() == input.len() * usages.len(),
        forall|i: int, j: int|
            0 <= i < input.len() && 0 <= j < usages.len() ==> r[i * usages.len() + j]
                == spec_with_buffer_usage(input[i], usages[j]),
        spec_in_buffer_rewrite(input, usages, s),
    ensures
        r.contains(s),
{
    let (i, j) = choose|i: int, j: int|
        0 <= i < input.len() && 0 <= j < usages.len() && s == spec_with_buffer_usage(
            input[i],
            usages[j],
        );
    let m = usages.len() as int;
    lemma_row_index_in_range(i, j, input.len() as int, m);
    assert(r[i * m + j] == s);
    assert(0 <= i * m + j < r.len());
}

/// A descriptor known to be a texture-usage rewrite stands in the rewritten
/// set itself.
pub proof fn lemma_texture_rewrite_contains(
    input: Seq<CapsStructure>,
    usages: Seq<TextureUsages>,
    r: Seq<CapsStructure>,
    s: CapsStructure,
)
    requires
        r.len() == input.len() * usages.len(),
        forall|i: int, j: int|
            0 <= i < input.len() && 0 <= j < usages.len() ==> r[i * usages.len() + j]
                == spec_with_texture_usage(input[i], usages[j]),
        spec_in_texture_rewrite(input, usages, s),
    ensures
        r.contains(s),
{
    let (i, j) = choose|i: int, j: int|
        0 <= i < input.len() && 0 <= j < usages.len() && s == spec_with_texture_usage(
            input[i],
            usages[j],
        );
    let m = usages.len() as int;
    lemma_row_index_in_range(i, j, input.len() as int, m);
    assert(r[i * m + j] == s);
    assert(0 <= i * m + j < r.len());
}

/// A descriptor known to be a host-memory rewrite stands in the rewritten
/// set itself.
pub proof fn lemma_system_rewrite_contains(
    input: Seq<CapsStructure>,
    r: Seq<CapsStructure>,
    s: CapsStructure,
)
    requires
        r.len() == input.len(),
        forall|i: int| 0 <= i < input.len() ==> r[i] == spec_to_system_memory(input[i]),
        spec_in_system_rewrite(input, s),
    ensures
        r.contains(s),
{
    let i = choose|i: int| 0 <= i < input.len() && s == spec_to_system_memory(input[i]);
    assert(r[i] == s);
}

} // verus!

