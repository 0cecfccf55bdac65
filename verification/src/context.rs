//! The device context: the shared adapter/device/queue bundle and its
//! completion-polling policy.
//!
//! A context is created once per pipeline, or adopted from a neighbouring
//! stage through the context-exchange protocol.  The device and queue handles
//! are fixed at creation and shared by reference; the only lifecycle events
//! are the optional background poller and the final teardown.  The device
//! requests themselves happen outside this crate: the caller reports whether
//! an adapter was found and whether it granted a device, and the constructor
//! decides the outcome.

use vstd::prelude::*;

use crate::errors::PipelineError;

verus! {

/// The context-kind identifier used to match contexts during exchange.
pub fn gst_context_wgpu_type() -> (r: String)
    ensures
        r@ == spec_wgpu_context_type(),
{
    "rust.wgpu.Context".to_owned()
}

/// The view of the fixed context-kind identifier.
pub open spec fn spec_wgpu_context_type() -> Seq<char> {
    "rust.wgpu.Context"@
}

/// How device completion polling happens.
#[derive(Clone, Copy, Debug, PartialEq, Eq, Structural)]
pub enum PollType {
    /// A background thread polls the device with a blocking wait.
    Threaded,
    /// A background thread polls the device in a busy loop.
    ThreadedBusy,
    /// The caller polls the device manually.
    Manual,
}

impl Default for PollType {
    /// Polling defaults to the blocking background thread.
    fn default() -> (r: Self)
        ensures
            r is Threaded,
    {
        PollType::Threaded
    }
}

/// One device-poll request the subsystem asks its caller to perform.
#[derive(Clone, Copy, Debug, PartialEq, Eq, Structural)]
pub enum DevicePoll {
    /// Block until work completes or the given time elapses.
    WaitMs(u64),
    /// Block until the outstanding submission completes.
    WaitIndefinite,
    /// Check for completed work without blocking.
    NonBlocking,
}

/// What the background poller does on one round of its loop.
#[derive(Clone, Copy, Debug, PartialEq, Eq, Structural)]
pub enum PollerAction {
    /// Leave the loop: the context is being torn down or was dropped.
    Exit,
    /// Issue this poll and loop again.
    Poll(DevicePoll),
}

/// The device limits the negotiation logic reads.
#[derive(Clone, Copy, Debug, PartialEq, Eq, Structural)]
pub struct DeviceLimits {
    /// Largest width or height a 2-D texture may have.
    pub max_texture_dimension_2d: u32,
}

/// A live handle to the context's device.
#[derive(Clone, Copy, Debug, PartialEq, Eq, Structural)]
pub struct DeviceHandle {
    /// The context the device belongs to.
    pub context_id: u64,
}

/// A live handle to the context's command queue.  Commands submitted to one
/// queue execute in submission order.
#[derive(Clone, Copy, Debug, PartialEq, Eq, Structural)]
pub struct QueueHandle {
    /// The context the queue belongs to.
    pub context_id: u64,
}

/// The shared device context.  The handles never change after construction;
/// two stages may perform device copies between each other's memory only when
/// they hold the same context (equal `id`), since ordering is guaranteed by
/// the single queue alone.
#[derive(Clone, Copy, Debug, PartialEq, Eq, Structural)]
pub struct WgpuContext {
    /// Identity of the underlying device/queue pair.
    pub id: u64,
    /// How completion polling happens for this context.
    pub poll_type: PollType,
    /// The limits the device was created with.
    pub limits: DeviceLimits,
    /// False once the context has been torn down.
    pub alive: bool,
    /// Whether the background poller thread is running.
    pub poller_running: bool,
}

/// Whether a poll mode needs the background poller thread.
pub open spec fn spec_needs_poller(poll_type: PollType) -> bool {
    !(poll_type is Manual)
}

/// Decides whether context creation spawns the background poller.
pub fn needs_poller(poll_type: PollType) -> (r: bool)
    ensures
        r == spec_needs_poller(poll_type),
{
    !matches!(poll_type, PollType::Manual)
}

/// The poll the background poller issues each round, by mode; the manual
/// mode has no poller.
pub open spec fn spec_poller_poll(poll_type: PollType) -> Option<DevicePoll> {
    match poll_type {
        PollType::Threaded => Some(DevicePoll::WaitMs(1000)),
        PollType::ThreadedBusy => Some(DevicePoll::NonBlocking),
        PollType::Manual => None,
    }
}

/// One round of the background poller loop: the poller exits when the
/// shutdown flag was cleared at teardown or when the context's last
/// reference was dropped — it never keeps the context alive on its own.
pub fn poller_step(poll_type: PollType, running: bool, context_referenced: bool) -> (r:
    PollerAction)
    ensures
        r is Exit <==> (!running || !context_referenced || poll_type is Manual),
        r matches PollerAction::Poll(p) ==> Some(p) == spec_poller_poll(poll_type),
{
    if !running || !context_referenced {
        return PollerAction::Exit;
    }
    match poll_type {
        PollType::Threaded => PollerAction::Poll(DevicePoll::WaitMs(1000)),
        PollType::ThreadedBusy => PollerAction::Poll(DevicePoll::NonBlocking),
        PollType::Manual => PollerAction::Exit,
    }
}

impl WgpuContext {
    /// A context that has been created and not torn down, with its poller
    /// matching its poll mode.
    pub open spec fn wf(self) -> bool {
        self.alive && self.poller_running == spec_needs_poller(self.poll_type)
    }

    /// Creates a context from the outcome of the caller's adapter and device
    /// requests.  Relies on nothing about the device itself: a missing
    /// adapter or a refused device request fails with the matching fatal
    /// error, and on success the poller is started exactly when the poll
    /// mode requires one.
    pub fn new(
        id: u64,
        adapter_available: bool,
        device_granted: bool,
        limits: DeviceLimits,
        poll_type: PollType,
    ) -> (r: Result<WgpuContext, PipelineError>)
        ensures
            !adapter_available ==> r == Err::<WgpuContext, PipelineError>(
                PipelineError::AdapterUnavailable,
            ),
            adapter_available && !device_granted ==> r == Err::<WgpuContext, PipelineError>(
                PipelineError::DeviceRequestFailed,
            ),
            adapter_available && device_granted ==> r == Ok::<WgpuContext, PipelineError>(
                WgpuContext {
                    id,
                    poll_type,
                    limits,
                    alive: true,
                    poller_running: spec_needs_poller(poll_type),
                },
            ),
            r matches Ok(c) ==> c.wf(),
    {
        if !adapter_available {
            return Err(PipelineError::AdapterUnavailable);
        }
        if !device_granted {
            return Err(PipelineError::DeviceRequestFailed);
        }
        Ok(
            WgpuContext {
                id,
                poll_type,
                limits,
                alive: true,
                poller_running: needs_poller(poll_type),
            },
        )
    }

    /// Creates a context that asks for everything the adapter offers: the
    /// device is requested with the adapter's own feature set and limits, so
    /// the resulting context carries the limits the caller read from the
    /// adapter.  The outcome rules are those of [`WgpuContext::new`].
    pub fn new_with_all_limits(
        id: u64,
        adapter_available: bool,
        device_granted: bool,
        adapter_limits: DeviceLimits,
        poll_type: PollType,
    ) -> (r: Result<WgpuContext, PipelineError>)
        ensures
            !adapter_available ==> r == Err::<WgpuContext, PipelineError>(
                PipelineError::AdapterUnavailable,
            ),
            adapter_available && !device_granted ==> r == Err::<WgpuContext, PipelineError>(
                PipelineError::DeviceRequestFailed,
            ),
            adapter_available && device_granted ==> r == Ok::<WgpuContext, PipelineError>(
                WgpuContext {
                    id,
                    poll_type,
                    limits: adapter_limits,
                    alive: true,
                    poller_running: spec_needs_poller(poll_type),
                },
            ),
            r matches Ok(c) ==> c.wf(),
    {
        WgpuContext::new(id, adapter_available, device_granted, adapter_limits, poll_type)
    }

    /// The device handle.  Calling after teardown is a programming error,
    /// stated as a precondition rather than checked at run time.
    pub fn device(&self) -> (r: DeviceHandle)
        requires
            self.alive,
        ensures
            r.context_id == self.id,
    {
        DeviceHandle { context_id: self.id }
    }

    /// The command-queue handle.  Calling after teardown is a programming
    /// error, stated as a precondition rather than checked at run time.
    pub fn queue(&self) -> (r: QueueHandle)
        requires
            self.alive,
        ensures
            r.context_id == self.id,
    {
        QueueHandle { context_id: self.id }
    }

    /// The limits of the device this context owns.
    pub fn limits(&self) -> (r: DeviceLimits)
        requires
            self.alive,
        ensures
            r == self.limits,
    {
        self.limits
    }

    /// How this context polls for completion.
    pub fn poll_type(&self) -> (r: PollType)
        ensures
            r == self.poll_type,
    {
        self.poll_type
    }

    /// One manual poll round: asks the caller to drive the device for at
    /// most `timeout_ms`.  Meant for the manual mode; in the background
    /// modes it is redundant with the poller and remains safe — it reads no
    /// state and changes none, so repeated calls are idempotent.
    pub fn poll_once(&self, timeout_ms: u64) -> (r: DevicePoll)
        requires
            self.alive,
        ensures
            r == DevicePoll::WaitMs(timeout_ms),
    {
        DevicePoll::WaitMs(timeout_ms)
    }

    /// Tears the context down: clears the poller's shutdown flag and joins
    /// it.  After this call the handles must no longer be asked for.
    pub fn teardown(&mut self)
        ensures
            *final(self) == (WgpuContext {
                alive: false,
                poller_running: false,
                ..*old(self)
            }),
    {
        self.alive = false;
        self.poller_running = false;
    }

    /// Wraps this context in an exchange message a neighbouring stage can
    /// adopt it from.
    pub fn as_gst_context(&self) -> (r: GstContextMessage)
        ensures
            r.context_type@ == spec_wgpu_context_type(),
            r.wgpu == Some(*self),
            spec_message_context(r) == Some(*self),
    {
        GstContextMessage { context_type: gst_context_wgpu_type(), wgpu: Some(*self) }
    }

    /// Reads a context out of an exchange message: only a message of the
    /// fixed context kind that actually carries a context yields one.
    pub fn map_gst_context_to_wgpu(context: &GstContextMessage) -> (r: Option<WgpuContext>)
        ensures
            r == spec_message_context(*context),
    {
        let expected = gst_context_wgpu_type();
        if context.context_type == expected {
            context.wgpu
        } else {
            None
        }
    }

    /// Looks for a shared context near a stage before the stage creates its
    /// own: downstream pads are asked first, then upstream pads, then the
    /// host is asked by message; the first context found wins.
    pub fn query_context_from_nearby_elements(
        src_pad_replies: &Vec<GstContextMessage>,
        sink_pad_replies: &Vec<GstContextMessage>,
        message_reply: &Option<GstContextMessage>,
    ) -> (r: Option<WgpuContext>)
        ensures
            r == spec_query_result(src_pad_replies@, sink_pad_replies@, *message_reply),
    {
        let from_src = first_context_in(src_pad_replies);
        if from_src.is_some() {
            return from_src;
        }
        let from_sink = first_context_in(sink_pad_replies);
        if from_sink.is_some() {
            return from_sink;
        }
        match message_reply {
            Some(m) => WgpuContext::map_gst_context_to_wgpu(m),
            None => None,
        }
    }
}

/// An exchange message: a context-kind identifier and, when the kind is the
/// one this subsystem uses, the shared context itself.
#[derive(Clone, Debug)]
pub struct GstContextMessage {
    /// Which kind of context the message carries.
    pub context_type: String,
    /// The shared context, present only in messages of the matching kind.
    pub wgpu: Option<WgpuContext>,
}

/// The context an exchange message offers, if any: the kind must match and
/// the payload must be present.
pub open spec fn spec_message_context(m: GstContextMessage) -> Option<WgpuContext> {
    if m.context_type@ == spec_wgpu_context_type() {
        m.wgpu
    } else {
        None
    }
}

/// The first context offered by a sequence of replies.
pub open spec fn spec_first_context(replies: Seq<GstContextMessage>) -> Option<WgpuContext>
    decreases replies.len(),
{
    if replies.len() == 0 {
        None
    } else if spec_message_context(replies[0]) is Some {
        spec_message_context(replies[0])
    } else {
        spec_first_context(replies.skip(1))
    }
}

/// What the nearby-element query returns: the first context among the
/// downstream replies, else among the upstream replies, else the one the
/// host posted back.
pub open spec fn spec_query_result(
    src_replies: Seq<GstContextMessage>,
    sink_replies: Seq<GstContextMessage>,
    message_reply: Option<GstContextMessage>,
) -> Option<WgpuContext> {
    if spec_first_context(src_replies) is Some {
        spec_first_context(src_replies)
    } else if spec_first_context(sink_replies) is Some {
        spec_first_context(sink_replies)
    } else {
        match message_reply {
            Some(m) => spec_message_context(m),
            None => None,
        }
    }
}

/// Walks the replies in order and takes the first context offered.
fn first_context_in(replies: &Vec<GstContextMessage>) -> (r: Option<WgpuContext>)
    ensures
        r == spec_first_context(replies@),
{
    let mut i: usize = 0;
    proof {
        assert(replies@.skip(0) =~= replies@);
    }
    while i < replies.len()
        invariant
            i <= replies.len(),
            spec_first_context(replies@) == spec_first_context(replies@.skip(i as int)),
        decreases replies.len() - i,
    {
        let found = WgpuContext::map_gst_context_to_wgpu(&replies[i]);
        if found.is_some() {
            proof {
                assert(replies@.skip(i as int)[0] == replies@[i as int]);
            }
            return found;
        }
        proof {
            assert(replies@.skip(i as int).skip(1) =~= replies@.skip(i as int + 1));
            assert(replies@.skip(i as int)[0] == replies@[i as int]);
        }
        i = i + 1;
    }
    proof {
        assert(replies@.skip(i as int).len() == 0);
    }
    None
}

} // verus!
