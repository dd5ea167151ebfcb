use moq_gst::pump::{
    collect_payload, MediaBuffer, PadMessage, PumpEvent, TrackFrame, TrackPump,
};
use moq_gst::service::{
    dispatch_pad_message, finish_given_up_pad, PadOperation, PadOutcome, PadStep,
};
use moq_gst::track::{TrackDescriptor, TrackKind};

fn payload(chunks: &[&[u8]]) -> hang::BufList {
    let mut list = hang::BufList::new();
    for chunk in chunks {
        list.push_chunk(bytes::Bytes::copy_from_slice(chunk));
    }
    list
}

fn pump(kind: TrackKind) -> TrackPump {
    TrackPump::new(TrackDescriptor { kind, name: "t".to_string() })
}

fn frame(timestamp: u64, keyframe: bool) -> PumpEvent {
    PumpEvent::Frame(TrackFrame { timestamp, keyframe, payload: payload(&[&[1, 2], &[3]]) })
}

fn buffer(messages: Vec<PadMessage>) -> MediaBuffer {
    assert_eq!(messages.len(), 1);
    match messages.into_iter().next() {
        Some(PadMessage::Buffer(buffer)) => buffer,
        _ => panic!("not a buffer"),
    }
}

#[test]
fn payload_chunks_are_joined_in_order() {
    assert_eq!(collect_payload(&payload(&[&[1, 2], &[3], &[4, 5]])), vec![1, 2, 3, 4, 5]);
    assert_eq!(collect_payload(&payload(&[])), Vec::<u8>::new());
}

#[test]
fn frames_are_timed_from_the_first() {
    let mut pump = pump(TrackKind::Video);
    let first = buffer(pump.step(frame(5_000_000, true)));
    assert_eq!(first.pts, 0);
    assert_eq!(first.data, vec![1, 2, 3]);
    assert_eq!(buffer(pump.step(frame(5_033_333, false))).pts, 33_333_000);
    assert_eq!(buffer(pump.step(frame(5_000_000, false))).pts, 0);
    assert_eq!(buffer(pump.step(frame(6_000_001, false))).pts, 1_000_001_000);
}

#[test]
fn long_spans_are_kept_to_64_bits() {
    let mut pump = pump(TrackKind::Audio);
    pump.step(frame(0, true));
    let span: u64 = 20_000_000_000_000_000;
    let expected = (span as u128 * 1000) as u64;
    assert_eq!(expected, 1_553_255_926_290_448_384);
    assert_eq!(buffer(pump.step(frame(span, true))).pts, expected);
}

#[test]
fn frame_before_the_first_is_not_accepted() {
    let mut pump = pump(TrackKind::Video);
    assert!(pump.accepts_timestamp(0));
    pump.step(frame(100, true));
    assert!(pump.accepts_timestamp(100));
    assert!(!pump.accepts_timestamp(99));
}

#[test]
fn only_video_frames_depend_on_others() {
    let mut video = pump(TrackKind::Video);
    assert!(!buffer(video.step(frame(0, true))).delta_unit);
    assert!(buffer(video.step(frame(1, false))).delta_unit);
    let mut audio = pump(TrackKind::Audio);
    assert!(!buffer(audio.step(frame(0, true))).delta_unit);
    assert!(!buffer(audio.step(frame(1, false))).delta_unit);
}

#[test]
fn end_of_track_is_announced_before_the_pad_goes() {
    let mut pump = pump(TrackKind::Video);
    let messages = pump.step(PumpEvent::End);
    assert_eq!(messages.len(), 2);
    assert!(matches!(messages[0], PadMessage::Eos));
    assert!(matches!(messages[1], PadMessage::Drop));
    assert!(!pump.is_running());
    assert!(pump.step(PumpEvent::Shutdown).is_empty());
}

#[test]
fn shutdown_and_failure_drop_the_pad() {
    for event in vec![PumpEvent::Shutdown, PumpEvent::Failed] {
        let mut pump = pump(TrackKind::Audio);
        let messages = pump.step(event);
        assert_eq!(messages.len(), 1);
        assert!(matches!(messages[0], PadMessage::Drop));
        assert!(!pump.is_running());
    }
}

#[test]
fn undelivered_buffer_stops_the_pump() {
    let mut pump = pump(TrackKind::Audio);
    pump.step(frame(0, true));
    assert!(pump.is_running());
    assert!(pump.step(PumpEvent::Undelivered).is_empty());
    assert!(!pump.is_running());
    assert!(pump.step(frame(1, true)).is_empty());
}

#[test]
fn messages_become_operations() {
    let media = MediaBuffer { data: vec![7], pts: 3, delta_unit: true };
    match dispatch_pad_message(PadMessage::Buffer(media)) {
        PadOperation::Push(buffer) => {
            assert_eq!(buffer.data, vec![7]);
            assert_eq!(buffer.pts, 3);
            assert!(buffer.delta_unit);
        }
        _ => panic!("not a push"),
    }
    assert!(matches!(dispatch_pad_message(PadMessage::Eos), PadOperation::PushEos));
    assert!(matches!(dispatch_pad_message(PadMessage::Drop), PadOperation::Deactivate));
}

#[test]
fn service_ends_with_a_refused_buffer_or_the_pad() {
    assert!(matches!(PadOutcome::Pushed { taken: true }.next(), PadStep::ServeOn));
    assert!(matches!(PadOutcome::Pushed { taken: false }.next(), PadStep::Stop));
    assert!(matches!(PadOutcome::EosPushed.next(), PadStep::ServeOn));
    assert!(matches!(PadOutcome::Removed { done: true }.next(), PadStep::Stop));
    assert!(matches!(PadOutcome::Removed { done: false }.next(), PadStep::Stop));
}

/// Performs an operation and those that come after it; whether the pad is served on.
fn perform(mut operation: PadOperation, works: bool, done: &mut Vec<&'static str>) -> bool {
    loop {
        let outcome = match operation {
            PadOperation::Push(_) => {
                done.push("push");
                PadOutcome::Pushed { taken: works }
            }
            PadOperation::PushEos => {
                done.push("eos");
                PadOutcome::EosPushed
            }
            PadOperation::Deactivate => {
                done.push("deactivate");
                PadOutcome::Deactivated { done: works }
            }
            PadOperation::Remove => {
                done.push("remove");
                PadOutcome::Removed { done: works }
            }
        };
        match outcome.next() {
            PadStep::Perform(next) => operation = next,
            PadStep::ServeOn => return true,
            PadStep::Stop => return false,
        }
    }
}

/// Carries out the messages of a pad, and what is left once its service has ended.
fn serve_given_up_pad(messages: Vec<PadMessage>, works: bool) -> Vec<&'static str> {
    let mut done = Vec::new();
    for message in messages {
        if !perform(dispatch_pad_message(message), works, &mut done) {
            break;
        }
    }
    if let Some(operation) = finish_given_up_pad(done.last() == Some(&"remove")) {
        perform(operation, works, &mut done);
    }
    done
}

#[test]
fn dropped_pad_is_deactivated_then_removed() {
    for works in [true, false] {
        let mut done = Vec::new();
        assert!(!perform(dispatch_pad_message(PadMessage::Drop), works, &mut done));
        assert_eq!(done, vec!["deactivate", "remove"]);
    }
}

#[test]
fn given_up_pad_is_retired_once() {
    let waiting = || {
        let media = MediaBuffer { data: vec![7], pts: 3, delta_unit: true };
        vec![PadMessage::Buffer(media), PadMessage::Eos, PadMessage::Drop]
    };
    assert_eq!(
        serve_given_up_pad(waiting(), true),
        vec!["push", "eos", "deactivate", "remove"]
    );
    assert_eq!(serve_given_up_pad(waiting(), false), vec!["push", "deactivate", "remove"]);
    assert_eq!(serve_given_up_pad(vec![], true), vec!["deactivate", "remove"]);
}

#[test]
fn end_of_stream_is_announced_only_at_the_end_of_the_track() {
    let announced = |event: PumpEvent| {
        let mut pump = pump(TrackKind::Video);
        pump.step(frame(1, true));
        let messages = pump.step(event);
        let late = pump.step(PumpEvent::End);
        assert!(late.is_empty());
        messages.iter().any(|message| matches!(message, PadMessage::Eos))
    };
    assert!(announced(PumpEvent::End));
    assert!(!announced(PumpEvent::Shutdown));
    assert!(!announced(PumpEvent::Failed));
    assert!(!announced(PumpEvent::Undelivered));
}
