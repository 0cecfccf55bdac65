//! The dispatch geometry of the compute-filter stages.
//!
//! A compute program runs over a grid of work-groups, each covering a fixed
//! square of pixels; a dispatch must cover the whole image, so each grid
//! dimension is the image dimension divided by the work-group edge, rounded
//! up.

use vstd::prelude::*;

verus! {

/// The edge, in pixels, of the square one work-group covers.
pub const WORKGROUP_EDGE: u32 = 8;

/// How many work-groups cover `dim` pixels: `dim / 8`, rounded up.
pub open spec fn spec_workgroups(dim: u32) -> int {
    (dim + WORKGROUP_EDGE - 1) / (WORKGROUP_EDGE as int)
}

/// Computes the work-group count covering `dim` pixels.
pub fn workgroups_for(dim: u32) -> (r: u32)
    ensures
        r == spec_workgroups(dim),
{
    (((dim as u64) + (WORKGROUP_EDGE as u64) - 1) / (WORKGROUP_EDGE as u64)) as u32
}

/// One compute dispatch, as handed to the device: the grid of work-groups to
/// run and whether the stage must block until the device finishes so the
/// result can be read on the host.  When the result only feeds the next
/// stage's device-side work, no wait is needed: completion is implicit in
/// command ordering on the shared queue.
#[derive(Clone, Copy, Debug, PartialEq, Eq, Structural)]
pub struct DispatchPlan {
    /// Work-groups along the image width.
    pub workgroups_x: u32,
    /// Work-groups along the image height.
    pub workgroups_y: u32,
    /// Depth of the grid; always one for a 2-D image.
    pub workgroups_z: u32,
    /// Whether the stage blocks until the submission completes.
    pub wait_for_host: bool,
}

} // verus!
