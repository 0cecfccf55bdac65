//! GPU-backed linear buffer memory: the memory object, its synchronous
//! map/unmap protocol over the asynchronous device mapping request, the
//! allocator that produces such objects, and the device-side buffer copy.
//!
//! The device's asynchronous completion channel is modelled by a script of
//! [`MapEvent`]s: each round, the channel either has nothing yet or delivers
//! the completion.  In manual poll mode the mapping thread drives the device
//! itself, one bounded poll per empty round; in the background modes it
//! blocks on the channel while the poller thread makes progress.

use vstd::prelude::*;

use crate::context::{spec_needs_poller, DevicePoll, WgpuContext};
use crate::errors::PipelineError;
use crate::usages::BufferUsages;

verus! {

/// The caps feature that marks a buffer as GPU-buffer-backed.
pub fn gst_caps_feature_memory_wgpu_buffer() -> (r: String)
    ensures
        r@ == spec_feature_memory_wgpu_buffer(),
{
    "memory:WgpuBuffer".to_owned()
}

/// The view of the GPU-buffer caps feature name.
pub open spec fn spec_feature_memory_wgpu_buffer() -> Seq<char> {
    "memory:WgpuBuffer"@
}

/// The access mode of a mapping request.
#[derive(Clone, Copy, Debug, PartialEq, Eq, Structural)]
pub enum MapMode {
    /// Map for host reads.
    Read,
    /// Map for host writes.
    Write,
}

/// What the single-slot completion channel yields on one round.
#[derive(Clone, Copy, Debug, PartialEq, Eq, Structural)]
pub enum MapEvent {
    /// The device has not finished the mapping yet.
    Empty,
    /// The mapping completed and the view may be taken.
    Ready,
}

/// A live mapped view of a buffer.  At most one exists per object; every
/// pointer derived from it dies when the object is unmapped.
#[derive(Clone, Copy, Debug, PartialEq, Eq, Structural)]
pub struct MappedView {
    /// The access mode that was actually granted.
    pub mode: MapMode,
    /// How many bytes from the start of the buffer the view covers.
    pub len: usize,
}

/// One GPU-resident linear buffer, with its capability mask fixed at
/// allocation time, the bytes the device holds for it, the at-most-one live
/// mapped view, and the shared back-reference to the owning context.
#[derive(Clone, Debug)]
pub struct WgpuMemory {
    /// The capability mask fixed at allocation.
    pub usage: BufferUsages,
    /// The device-resident bytes.
    pub data: Vec<u8>,
    /// The live view, if the buffer is currently mapped.
    pub view: Option<MappedView>,
    /// The context whose device owns the buffer.
    pub context: WgpuContext,
}

/// The mode a read-map request is granted under a mask: the read-map bit
/// grants a read view; failing that, a write-map-only buffer grants its
/// write view instead — the documented escape for the buffer-download path,
/// where the producer already guaranteed the content is host-visible.
pub open spec fn spec_read_grant(usage: BufferUsages) -> Option<MapMode> {
    if usage.map_read {
        Some(MapMode::Read)
    } else if usage.map_write {
        Some(MapMode::Write)
    } else {
        None
    }
}

/// The mode a write-map request is granted under a mask: the write-map bit
/// or nothing.
pub open spec fn spec_write_grant(usage: BufferUsages) -> Option<MapMode> {
    if usage.map_write {
        Some(MapMode::Write)
    } else {
        None
    }
}

/// The mode a map request of the given kind is granted under a mask.
pub open spec fn spec_map_grant(usage: BufferUsages, mode: MapMode) -> Option<MapMode> {
    match mode {
        MapMode::Read => spec_read_grant(usage),
        MapMode::Write => spec_write_grant(usage),
    }
}

/// Whether the wait for the mapping completion succeeds: in manual mode the
/// completion must arrive within the caller's bound of poll rounds; in the
/// background modes the call blocks until the poller delivers it.
pub open spec fn spec_map_completes(
    poll_type: crate::context::PollType,
    events: Seq<MapEvent>,
    timeout_rounds: u64,
) -> bool {
    if spec_needs_poller(poll_type) {
        true
    } else {
        exists|i: int| 0 <= i < events.len() && i < timeout_rounds && events[i] is Ready
    }
}

/// A script that ends in a completion, as the background poller guarantees.
pub open spec fn spec_eventually_ready(events: Seq<MapEvent>) -> bool {
    exists|i: int| 0 <= i < events.len() && events[i] is Ready
}

/// The bytes a buffer holds after a write through a view of `view_len`
/// bytes: the write covers what both the source and the view can give.
pub open spec fn spec_write_through_view(data: Seq<u8>, view_len: int, src: Seq<u8>) -> Seq<u8> {
    let n = if src.len() <= view_len {
        src.len() as int
    } else {
        view_len
    };
    src.take(n) + data.skip(n)
}

/// The result of overwriting the front of `dst` with as much of `src` as
/// fits: the common prefix comes from `src`, the tail keeps `dst`'s bytes.
pub open spec fn spec_copy_into(dst: Seq<u8>, src: Seq<u8>) -> Seq<u8> {
    let n = if src.len() <= dst.len() {
        src.len() as int
    } else {
        dst.len() as int
    };
    src.take(n) + dst.skip(n)
}

/// What one map request does to a memory object: a live view fails it with
/// `AlreadyMapped`, a missing capability bit with `CapabilityMissing`, an
/// exhausted manual-mode wait with `MapTimeout`, and otherwise the granted
/// view is installed.  No error leaves a new view behind.
pub open spec fn spec_map_step(
    m: WgpuMemory,
    mode: MapMode,
    len: usize,
    events: Seq<MapEvent>,
    timeout_rounds: u64,
) -> (WgpuMemory, Result<MapMode, PipelineError>) {
    if m.view is Some {
        (m, Err(PipelineError::AlreadyMapped))
    } else {
        match spec_map_grant(m.usage, mode) {
            None => (m, Err(PipelineError::CapabilityMissing)),
            Some(g) => if spec_map_completes(m.context.poll_type, events, timeout_rounds) {
                (WgpuMemory { view: Some(MappedView { mode: g, len }), ..m }, Ok(g))
            } else {
                (m, Err(PipelineError::MapTimeout))
            },
        }
    }
}

/// What one unmap does to a memory object: the view is dropped; on an
/// unmapped object nothing changes.
pub open spec fn spec_unmap_step(m: WgpuMemory) -> WgpuMemory {
    WgpuMemory { view: None, ..m }
}

/// Blocks until the mapping completes.  In manual mode the calling thread
/// polls the device once per empty round, up to `timeout_rounds` rounds, and
/// reports `MapTimeout` when the bound is exhausted; in the background modes
/// it blocks on the channel, which the poller always resolves.
fn wait_map_completion(
    poll_type: crate::context::PollType,
    timeout_rounds: u64,
    events: &Vec<MapEvent>,
) -> (r: Result<(), PipelineError>)
    requires
        spec_needs_poller(poll_type) ==> spec_eventually_ready(events@),
    ensures
        r is Ok <==> spec_map_completes(poll_type, events@, timeout_rounds),
        r is Err ==> r == Err::<(), PipelineError>(PipelineError::MapTimeout),
{
    if crate::context::needs_poller(poll_type) {
        let mut i: usize = 0;
        while i < events.len()
            invariant
                spec_needs_poller(poll_type),
                spec_eventually_ready(events@),
                0 <= i <= events@.len(),
                forall|j: int| 0 <= j < i ==> !(events@[j] is Ready),
            decreases events@.len() - i,
        {
            if matches!(events[i], MapEvent::Ready) {
                return Ok(());
            }
            i = i + 1;
        }
        proof {
            assert(false);
        }
        Err(PipelineError::MapTimeout)
    } else {
        let mut i: usize = 0;
        while i < events.len() && (i as u64) < timeout_rounds
            invariant
                !spec_needs_poller(poll_type),
                0 <= i <= events@.len(),
                forall|j: int| 0 <= j < i ==> !(j < timeout_rounds && events@[j] is Ready),
            decreases events@.len() - i,
        {
            if matches!(events[i], MapEvent::Ready) {
                return Ok(());
            }
            i = i + 1;
        }
        Err(PipelineError::MapTimeout)
    }
}

impl WgpuMemory {
    /// A consistent memory object: any live view fits inside the buffer and
    /// was granted under the capability mask.
    pub open spec fn wf(self) -> bool {
        match self.view {
            Some(v) => v.len <= self.data.len() && (v.mode is Read ==> self.usage.map_read) && (
            v.mode is Write ==> self.usage.map_write),
            None => true,
        }
    }

    /// The byte size of the buffer.
    pub fn size(&self) -> (r: usize)
        ensures
            r == self.data@.len(),
    {
        self.data.len()
    }

    /// The capability mask fixed at allocation.
    pub fn usage(&self) -> (r: BufferUsages)
        ensures
            r == self.usage,
    {
        self.usage
    }

    /// The context whose device owns this buffer.
    pub fn context(&self) -> (r: &WgpuContext)
        ensures
            *r == self.context,
    {
        &self.context
    }

    /// Whether a view is currently live on this buffer.
    pub fn is_mapped(&self) -> (r: bool)
        ensures
            r == (self.view is Some),
    {
        self.view.is_some()
    }

    /// Maps the first `len` bytes for host reads.  A second map before
    /// `unmap` fails with `AlreadyMapped`; a mask without the read-map bit
    /// falls back to the write view when it may (the documented escape), and
    /// fails with `CapabilityMissing` otherwise; in manual poll mode the wait
    /// is bounded and may fail with `MapTimeout`, after which no view is
    /// left behind.
    pub fn map_read(&mut self, len: usize, events: &Vec<MapEvent>, timeout_rounds: u64) -> (r:
        Result<MapMode, PipelineError>)
        requires
            old(self).wf(),
            len <= old(self).data@.len(),
            spec_needs_poller(old(self).context.poll_type) ==> spec_eventually_ready(events@),
        ensures
            final(self).wf(),
            final(self).data == old(self).data,
            final(self).usage == old(self).usage,
            final(self).context == old(self).context,
            old(self).view is Some ==> r == Err::<MapMode, PipelineError>(
                PipelineError::AlreadyMapped,
            ) && final(self).view == old(self).view,
            old(self).view is None && spec_read_grant(old(self).usage) is None ==> r == Err::<
                MapMode,
                PipelineError,
            >(PipelineError::CapabilityMissing) && final(self).view is None,
            old(self).view is None && spec_read_grant(old(self).usage) is Some
                && !spec_map_completes(old(self).context.poll_type, events@, timeout_rounds) ==> r
                == Err::<MapMode, PipelineError>(PipelineError::MapTimeout) && final(self).view is None,
            old(self).view is None && spec_read_grant(old(self).usage) is Some
                && spec_map_completes(old(self).context.poll_type, events@, timeout_rounds) ==> r
                == Ok::<MapMode, PipelineError>(spec_read_grant(old(self).usage)->Some_0) && final(self).view == Some(MappedView { mode: spec_read_grant(old(self).usage)->Some_0, len }),
            (*final(self), r) == spec_map_step(
                *old(self),
                MapMode::Read,
                len,
                events@,
                timeout_rounds,
            ),
    {
        if self.view.is_some() {
            return Err(PipelineError::AlreadyMapped);
        }
        let mode = if self.usage.map_read {
            MapMode::Read
        } else if self.usage.map_write {
            // A read-map request against a write-map-only buffer returns the
            // write-mapped view: the producer already made the content
            // host-visible.
            MapMode::Write
        } else {
            return Err(PipelineError::CapabilityMissing);
        };
        match wait_map_completion(self.context.poll_type, timeout_rounds, events) {
            Ok(()) => {
                self.view = Some(MappedView { mode, len });
                Ok(mode)
            },
            Err(e) => Err(e),
        }
    }

    /// Maps the first `len` bytes for host writes.  A second map before
    /// `unmap` fails with `AlreadyMapped`; a mask without the write-map bit
    /// fails with `CapabilityMissing` — there is no fallback for writes; in
    /// manual poll mode the wait is bounded and may fail with `MapTimeout`,
    /// after which no view is left behind.
    pub fn map_write(&mut self, len: usize, events: &Vec<MapEvent>, timeout_rounds: u64) -> (r:
        Result<MapMode, PipelineError>)
        requires
            old(self).wf(),
            len <= old(self).data@.len(),
            spec_needs_poller(old(self).context.poll_type) ==> spec_eventually_ready(events@),
        ensures
            final(self).wf(),
            final(self).data == old(self).data,
            final(self).usage == old(self).usage,
            final(self).context == old(self).context,
            old(self).view is Some ==> r == Err::<MapMode, PipelineError>(
                PipelineError::AlreadyMapped,
            ) && final(self).view == old(self).view,
            old(self).view is None && spec_write_grant(old(self).usage) is None ==> r == Err::<
                MapMode,
                PipelineError,
            >(PipelineError::CapabilityMissing) && final(self).view is None,
            old(self).view is None && spec_write_grant(old(self).usage) is Some
                && !spec_map_completes(old(self).context.poll_type, events@, timeout_rounds) ==> r
                == Err::<MapMode, PipelineError>(PipelineError::MapTimeout) && final(self).view is None,
            old(self).view is None && spec_write_grant(old(self).usage) is Some
                && spec_map_completes(old(self).context.poll_type, events@, timeout_rounds) ==> r
                == Ok::<MapMode, PipelineError>(MapMode::Write) && final(self).view == Some(
                MappedView { mode: MapMode::Write, len },
            ),
            (*final(self), r) == spec_map_step(
                *old(self),
                MapMode::Write,
                len,
                events@,
                timeout_rounds,
            ),
    {
        if self.view.is_some() {
            return Err(PipelineError::AlreadyMapped);
        }
        if !self.usage.map_write {
            return Err(PipelineError::CapabilityMissing);
        }
        match wait_map_completion(self.context.poll_type, timeout_rounds, events) {
            Ok(()) => {
                self.view = Some(MappedView { mode: MapMode::Write, len });
                Ok(MapMode::Write)
            },
            Err(e) => Err(e),
        }
    }

    /// Drops the live view, issues the device unmap, and returns the
    /// best-effort non-blocking poll to start reclaiming the mapping.  All
    /// pointers obtained from the view become invalid at this call.  Calling
    /// on an unmapped buffer is a defined no-op.
    pub fn unmap(&mut self) -> (r: Option<DevicePoll>)
        requires
            old(self).wf(),
        ensures
            final(self).wf(),
            final(self).view is None,
            final(self).data == old(self).data,
            final(self).usage == old(self).usage,
            final(self).context == old(self).context,
            r == (if old(self).view is Some {
                Some(DevicePoll::NonBlocking)
            } else {
                None::<DevicePoll>
            }),
            *final(self) == spec_unmap_step(*old(self)),
    {
        let was_mapped = self.view.is_some();
        self.view = None;
        if was_mapped {
            Some(DevicePoll::NonBlocking)
        } else {
            None
        }
    }

    /// Reads the bytes the live view covers.
    pub fn read_mapped(&self) -> (r: Vec<u8>)
        requires
            self.wf(),
            self.view is Some,
        ensures
            r@ == self.data@.take(self.view->Some_0.len as int),
    {
        let len = match &self.view {
            Some(v) => v.len,
            None => 0,
        };
        let mut out: Vec<u8> = Vec::new();
        let mut i: usize = 0;
        while i < len
            invariant
                i <= len,
                len <= self.data@.len(),
                out@ =~= self.data@.take(i as int),
            decreases len - i,
        {
            out.push(self.data[i]);
            proof {
                assert(self.data@.take(i + 1 as int) =~= self.data@.take(i as int).push(
                    self.data@[i as int],
                ));
            }
            i = i + 1;
        }
        out
    }

    /// Writes `src` at the start of the buffer through the live write view:
    /// as many bytes as both the source and the view can give.
    pub fn write_mapped(&mut self, src: &Vec<u8>)
        requires
            old(self).wf(),
            old(self).view matches Some(v) && v.mode is Write,
        ensures
            final(self).wf(),
            final(self).data@ == spec_write_through_view(
                old(self).data@,
                old(self).view->Some_0.len as int,
                src@,
            ),
            final(self).view == old(self).view,
            final(self).usage == old(self).usage,
            final(self).context == old(self).context,
    {
        let view_len = match &self.view {
            Some(v) => v.len,
            None => 0,
        };
        let n = if src.len() <= view_len {
            src.len()
        } else {
            view_len
        };
        let mut i: usize = 0;
        while i < n
            invariant
                i <= n,
                n <= src@.len(),
                n <= self.data@.len(),
                self.data@.len() == old(self).data@.len(),
                forall|j: int| 0 <= j < i ==> self.data@[j] == src@[j],
                forall|j: int| i <= j < self.data@.len() ==> self.data@[j] == old(self).data@[j],
                self.view == old(self).view,
                self.usage == old(self).usage,
                self.context == old(self).context,
            decreases n - i,
        {
            let b = src[i];
            self.data[i] = b;
            i = i + 1;
        }
        proof {
            assert(self.data@ =~= spec_write_through_view(
                old(self).data@,
                old(self).view->Some_0.len as int,
                src@,
            ));
        }
    }
}

/// The ordered release steps of `free`: the device-side resource goes first,
/// then the host-side record, and the context back-reference last.
#[derive(Clone, Copy, Debug, PartialEq, Eq, Structural)]
pub enum ReleaseStep {
    /// Release the GPU buffer on the device.
    DeviceResource,
    /// Release the host-side memory record.
    HostRecord,
    /// Drop the shared reference to the device context.
    ContextReference,
}

/// The allocator that produces GPU buffer memory objects.  A mask bound at
/// construction applies to every allocation; without one, the mask is
/// derived per call from the requested access.
#[derive(Clone, Copy, Debug)]
pub struct WgpuMemoryAllocator {
    /// The context whose device performs the allocations.
    pub context: WgpuContext,
    /// The capability mask bound to every allocation, if one was bound.
    pub explicit_usages: Option<BufferUsages>,
}

/// The parameters of one allocation request.
#[derive(Clone, Copy, Debug, PartialEq, Eq, Structural)]
pub struct AllocationParams {
    /// The memory will only ever be read by the host.
    pub readonly: bool,
}

/// The mask an allocation gets: the bound mask when the allocator has one,
/// else {read-map, copy-destination} for read-only requests and
/// {write-map, copy-source} for writable ones.
pub open spec fn spec_alloc_usage(explicit: Option<BufferUsages>, readonly: bool) -> BufferUsages {
    match explicit {
        Some(u) => u,
        None => if readonly {
            BufferUsages { map_read: true, map_write: false, copy_src: false, copy_dst: true }
        } else {
            BufferUsages { map_read: false, map_write: true, copy_src: true, copy_dst: false }
        },
    }
}

impl WgpuMemoryAllocator {
    /// An allocator that derives each allocation's mask from the requested
    /// access flags.
    pub fn new(context: WgpuContext) -> (r: Self)
        ensures
            r.context == context,
            r.explicit_usages is None,
    {
        WgpuMemoryAllocator { context, explicit_usages: None }
    }

    /// An allocator with the given mask bound to every allocation.
    pub fn new_with_explicit_usage(context: WgpuContext, usages: BufferUsages) -> (r: Self)
        ensures
            r.context == context,
            r.explicit_usages == Some(usages),
    {
        WgpuMemoryAllocator { context, explicit_usages: Some(usages) }
    }

    /// The mask bound at construction, if any.
    pub fn explicit_usages(&self) -> (r: Option<BufferUsages>)
        ensures
            r == self.explicit_usages,
    {
        self.explicit_usages
    }

    /// The context this allocator allocates on.
    pub fn context(&self) -> (r: &WgpuContext)
        ensures
            *r == self.context,
    {
        &self.context
    }

    /// Allocates one buffer of `size` bytes under the bound or derived mask.
    /// The device performs the actual allocation; the caller reports whether
    /// it succeeded, and a device-side failure surfaces as
    /// `AllocationFailed`.  A fresh buffer is zero-filled and unmapped.
    pub fn allocate(&self, size: usize, params: Option<&AllocationParams>, device_ok: bool) -> (r:
        Result<WgpuMemory, PipelineError>)
        requires
            self.context.alive,
        ensures
            !device_ok ==> r == Err::<WgpuMemory, PipelineError>(PipelineError::AllocationFailed),
            device_ok ==> (r matches Ok(m) && m.wf() && m.usage == spec_alloc_usage(
                self.explicit_usages,
                spec_params_readonly(params),
            ) && m.data@ == Seq::new(size as nat, |i: int| 0u8) && m.view is None && m.context
                == self.context),
    {
        if !device_ok {
            return Err(PipelineError::AllocationFailed);
        }
        let readonly = match params {
            Some(p) => p.readonly,
            None => false,
        };
        let usage = match self.explicit_usages {
            Some(u) => u,
            None => if readonly {
                BufferUsages { map_read: true, map_write: false, copy_src: false, copy_dst: true }
            } else {
                BufferUsages { map_read: false, map_write: true, copy_src: true, copy_dst: false }
            },
        };
        let mut data: Vec<u8> = Vec::new();
        let mut i: usize = 0;
        while i < size
            invariant
                i <= size,
                data@ =~= Seq::new(i as nat, |j: int| 0u8),
            decreases size - i,
        {
            data.push(0);
            i = i + 1;
        }
        proof {
            assert(data@ =~= Seq::new(size as nat, |j: int| 0u8));
        }
        Ok(WgpuMemory { usage, data, view: None, context: self.context })
    }

    /// Destroys one buffer this allocator produced, in the required order:
    /// the device-side resource is released before the host-side record, and
    /// the shared context reference is dropped last.
    pub fn free(&self, memory: WgpuMemory) -> (r: Vec<ReleaseStep>)
        ensures
            r@ =~= seq![
                ReleaseStep::DeviceResource,
                ReleaseStep::HostRecord,
                ReleaseStep::ContextReference,
            ],
    {
        let mut steps: Vec<ReleaseStep> = Vec::new();
        steps.push(ReleaseStep::DeviceResource);
        steps.push(ReleaseStep::HostRecord);
        steps.push(ReleaseStep::ContextReference);
        steps
    }
}

/// The read-only flag of an optional parameter record.
pub open spec fn spec_params_readonly(params: Option<&AllocationParams>) -> bool {
    match params {
        Some(p) => p.readonly,
        None => false,
    }
}

/// The device-side buffer-to-buffer copy: overwrites the front of `dst` with
/// `min(src.size, dst.size)` bytes of `src`.  Both buffers must be unmapped,
/// must carry the matching copy capability, and must live on the same
/// context, since only the shared queue orders the copy against neighbouring
/// commands.
pub fn copy_buffer_to_buffer(src: &WgpuMemory, dst: &mut WgpuMemory)
    requires
        src.wf(),
        old(dst).wf(),
        src.usage.copy_src,
        old(dst).usage.copy_dst,
        src.view is None,
        old(dst).view is None,
        src.context.id == old(dst).context.id,
    ensures
        final(dst).wf(),
        final(dst).data@ == spec_copy_into(old(dst).data@, src.data@),
        final(dst).view is None,
        final(dst).usage == old(dst).usage,
        final(dst).context == old(dst).context,
{
    let n = if src.data.len() <= dst.data.len() {
        src.data.len()
    } else {
        dst.data.len()
    };
    let mut i: usize = 0;
    while i < n
        invariant
            i <= n,
            n <= src.data@.len(),
            n <= dst.data@.len(),
            dst.data@.len() == old(dst).data@.len(),
            forall|j: int| 0 <= j < i ==> dst.data@[j] == src.data@[j],
            forall|j: int| i <= j < dst.data@.len() ==> dst.data@[j] == old(dst).data@[j],
            dst.view == old(dst).view,
            dst.usage == old(dst).usage,
            dst.context == old(dst).context,
        decreases n - i,
    {
        let b = src.data[i];
        dst.data[i] = b;
        i = i + 1;
    }
    proof {
        assert(dst.data@ =~= spec_copy_into(old(dst).data@, src.data@));
    }
}

} // verus!
