//! Device-context creation, polling decisions, and the context exchange.

use deka_gst_wgpu::context::{
    gst_context_wgpu_type, poller_step, DeviceLimits, DevicePoll, GstContextMessage, PollType,
    PollerAction, WgpuContext,
};
use deka_gst_wgpu::errors::PipelineError;

fn limits() -> DeviceLimits {
    DeviceLimits { max_texture_dimension_2d: 8192 }
}

#[test]
fn creation_fails_without_an_adapter() {
    let r = WgpuContext::new(1, false, false, limits(), PollType::Threaded);
    assert_eq!(r.unwrap_err(), PipelineError::AdapterUnavailable);
}

#[test]
fn creation_fails_when_the_device_request_is_refused() {
    let r = WgpuContext::new(1, true, false, limits(), PollType::Threaded);
    assert_eq!(r.unwrap_err(), PipelineError::DeviceRequestFailed);
}

#[test]
fn poller_starts_exactly_for_background_modes() {
    let threaded = WgpuContext::new(1, true, true, limits(), PollType::Threaded).unwrap();
    assert!(threaded.poller_running);
    let busy = WgpuContext::new(2, true, true, limits(), PollType::ThreadedBusy).unwrap();
    assert!(busy.poller_running);
    let manual = WgpuContext::new(3, true, true, limits(), PollType::Manual).unwrap();
    assert!(!manual.poller_running);
}

#[test]
fn handles_belong_to_the_context() {
    let c = WgpuContext::new(11, true, true, limits(), PollType::Manual).unwrap();
    assert_eq!(c.device().context_id, 11);
    assert_eq!(c.queue().context_id, 11);
    assert_eq!(c.limits().max_texture_dimension_2d, 8192);
}

#[test]
fn poller_step_polls_by_mode_and_exits_on_shutdown() {
    assert_eq!(
        poller_step(PollType::Threaded, true, true),
        PollerAction::Poll(DevicePoll::WaitMs(1000))
    );
    assert_eq!(
        poller_step(PollType::ThreadedBusy, true, true),
        PollerAction::Poll(DevicePoll::NonBlocking)
    );
    // Shutdown flag cleared, or the context dropped: the poller leaves.
    assert_eq!(poller_step(PollType::Threaded, false, true), PollerAction::Exit);
    assert_eq!(poller_step(PollType::Threaded, true, false), PollerAction::Exit);
    assert_eq!(poller_step(PollType::Manual, true, true), PollerAction::Exit);
}

#[test]
fn teardown_stops_the_poller() {
    let mut c = WgpuContext::new(5, true, true, limits(), PollType::Threaded).unwrap();
    c.teardown();
    assert!(!c.alive);
    assert!(!c.poller_running);
}

#[test]
fn context_exchange_round_trip() {
    let c = WgpuContext::new(9, true, true, limits(), PollType::Manual).unwrap();
    let message = c.as_gst_context();
    let back = WgpuContext::map_gst_context_to_wgpu(&message).unwrap();
    assert_eq!(back.id, 9);
}

#[test]
fn exchange_refuses_a_foreign_context_kind() {
    let c = WgpuContext::new(9, true, true, limits(), PollType::Manual).unwrap();
    let message = GstContextMessage {
        context_type: "some.other.Context".to_owned(),
        wgpu: Some(c),
    };
    assert!(WgpuContext::map_gst_context_to_wgpu(&message).is_none());
}

#[test]
fn exchange_refuses_a_message_without_a_payload() {
    let message = GstContextMessage { context_type: gst_context_wgpu_type(), wgpu: None };
    assert!(WgpuContext::map_gst_context_to_wgpu(&message).is_none());
}

#[test]
fn nearby_query_prefers_downstream_then_upstream_then_the_message() {
    let a = WgpuContext::new(1, true, true, limits(), PollType::Manual).unwrap();
    let b = WgpuContext::new(2, true, true, limits(), PollType::Manual).unwrap();
    let c = WgpuContext::new(3, true, true, limits(), PollType::Manual).unwrap();

    let src = vec![a.as_gst_context()];
    let sink = vec![b.as_gst_context()];
    let message = Some(c.as_gst_context());

    let found = WgpuContext::query_context_from_nearby_elements(&src, &sink, &message);
    assert_eq!(found.unwrap().id, 1);

    let none: Vec<GstContextMessage> = Vec::new();
    let found = WgpuContext::query_context_from_nearby_elements(&none, &sink, &message);
    assert_eq!(found.unwrap().id, 2);

    let found = WgpuContext::query_context_from_nearby_elements(&none, &none, &message);
    assert_eq!(found.unwrap().id, 3);

    let found = WgpuContext::query_context_from_nearby_elements(&none, &none, &None);
    assert!(found.is_none());
}

#[test]
fn nearby_query_skips_foreign_replies() {
    let a = WgpuContext::new(1, true, true, limits(), PollType::Manual).unwrap();
    let foreign = GstContextMessage { context_type: "other".to_owned(), wgpu: Some(a) };
    let b = WgpuContext::new(2, true, true, limits(), PollType::Manual).unwrap();
    let src = vec![foreign, b.as_gst_context()];
    let none: Vec<GstContextMessage> = Vec::new();
    let found = WgpuContext::query_context_from_nearby_elements(&src, &none, &None);
    assert_eq!(found.unwrap().id, 2);
}

#[test]
fn recoverable_and_fatal_errors() {
    assert!(PipelineError::MapTimeout.is_recoverable());
    assert!(PipelineError::AllocationFailed.is_recoverable());
    assert!(PipelineError::NotNegotiated.is_recoverable());
    assert!(!PipelineError::AdapterUnavailable.is_recoverable());
    assert!(!PipelineError::MalformedDescriptor.is_recoverable());
    assert!(!PipelineError::NegotiatedBeforeCommit.is_recoverable());
}
