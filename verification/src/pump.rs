//! Carrying the frames of one track to its pad.

use vstd::prelude::*;

use crate::outside::{bytes_of, chunks_of};
use crate::track::{TrackDescriptor, TrackDescriptorView, TrackKind};

verus! {

/// A frame as it is read from a track.
pub struct TrackFrame {
    /// When the frame is to be shown, in microseconds.
    pub timestamp: u64,
    /// Whether the frame can be decoded on its own.
    pub keyframe: bool,
    /// The encoded frame, in chunks.
    pub payload: hang::BufList,
}

/// The value of a `TrackFrame`.
pub struct TrackFrameView {
    pub timestamp: u64,
    pub keyframe: bool,
    pub payload: Seq<u8>,
}

impl View for TrackFrame {
    type V = TrackFrameView;

    open spec fn view(&self) -> TrackFrameView {
        TrackFrameView {
            timestamp: self.timestamp,
            keyframe: self.keyframe,
            payload: chunks_of(self.payload).flatten(),
        }
    }
}

/// A buffer to push on a pad.
#[derive(Debug)]
pub struct MediaBuffer {
    pub data: Vec<u8>,
    /// The presentation time, in nanoseconds from the track's first frame.
    pub pts: u64,
    /// Whether the buffer needs earlier ones to be decoded.
    pub delta_unit: bool,
}

/// The value of a `MediaBuffer`.
pub struct MediaBufferView {
    pub data: Seq<u8>,
    pub pts: u64,
    pub delta_unit: bool,
}

impl View for MediaBuffer {
    type V = MediaBufferView;

    open spec fn view(&self) -> MediaBufferView {
        MediaBufferView { data: self.data@, pts: self.pts, delta_unit: self.delta_unit }
    }
}

/// What is sent to the task that serves a pad.
#[derive(Debug)]
pub enum PadMessage {
    /// Push the buffer.
    Buffer(MediaBuffer),
    /// Push the end of the stream.
    Eos,
    /// Remove the pad.
    Drop,
}

/// The value of a `PadMessage`.
pub enum PadMessageView {
    Buffer(MediaBufferView),
    Eos,
    Drop,
}

impl View for PadMessage {
    type V = PadMessageView;

    open spec fn view(&self) -> PadMessageView {
        match *self {
            PadMessage::Buffer(buffer) => PadMessageView::Buffer(buffer@),
            PadMessage::Eos => PadMessageView::Eos,
            PadMessage::Drop => PadMessageView::Drop,
        }
    }
}

/// The values of messages.
pub open spec fn messages_view(messages: Seq<PadMessage>) -> Seq<PadMessageView> {
    Seq::new(messages.len(), |i: int| messages[i]@)
}

/// What happens to a pump.
pub enum PumpEvent {
    /// The session is shutting down.
    Shutdown,
    /// A frame was read.
    Frame(TrackFrame),
    /// The track has ended.
    End,
    /// Reading the track failed.
    Failed,
    /// A message could not be delivered, since nothing serves the pad any more.
    Undelivered,
}

/// The value of a `PumpEvent`.
pub enum PumpEventView {
    Shutdown,
    Frame(TrackFrameView),
    End,
    Failed,
    Undelivered,
}

impl View for PumpEvent {
    type V = PumpEventView;

    open spec fn view(&self) -> PumpEventView {
        match *self {
            PumpEvent::Shutdown => PumpEventView::Shutdown,
            PumpEvent::Frame(frame) => PumpEventView::Frame(frame@),
            PumpEvent::End => PumpEventView::End,
            PumpEvent::Failed => PumpEventView::Failed,
            PumpEvent::Undelivered => PumpEventView::Undelivered,
        }
    }
}

/// Carries the frames of one track to its pad until the track or the session ends.
pub struct TrackPump {
    descriptor: TrackDescriptor,
    reference_ts: Option<u64>,
    running: bool,
}

/// The value of a `TrackPump`.
pub struct PumpView {
    pub descriptor: TrackDescriptorView,
    /// The timestamp of the first frame, once it has come.
    pub reference_ts: Option<u64>,
    pub running: bool,
}

/// The nanoseconds of a span of microseconds, in 64 bits.
pub open spec fn nanoseconds_of(microseconds: int) -> u64 {
    ((microseconds * 1000) % 0x1_0000_0000_0000_0000) as u64
}

/// The presentation time of a frame, given the timestamp of the track's first one.
pub open spec fn pts_of(reference_ts: u64, timestamp: u64) -> u64 {
    nanoseconds_of(timestamp - reference_ts)
}

/// The buffer for a frame of a track of that kind.
pub open spec fn media_buffer_of(
    kind: TrackKind,
    reference_ts: u64,
    frame: TrackFrameView,
) -> MediaBufferView {
    MediaBufferView {
        data: frame.payload,
        pts: pts_of(reference_ts, frame.timestamp),
        delta_unit: kind == TrackKind::Video && !frame.keyframe,
    }
}

impl PumpView {
    /// A pump that has seen nothing yet.
    pub open spec fn initial(descriptor: TrackDescriptorView) -> PumpView {
        PumpView { descriptor, reference_ts: None, running: true }
    }

    /// The timestamp that a frame is measured from.
    pub open spec fn reference_for(self, frame: TrackFrameView) -> u64 {
        match self.reference_ts {
            Some(reference_ts) => reference_ts,
            None => frame.timestamp,
        }
    }

    /// Whether the event can be handled: no frame may lie before the first one.
    pub open spec fn accepts(self, event: PumpEventView) -> bool {
        match event {
            PumpEventView::Frame(frame) => self.running ==> self.reference_for(frame)
                <= frame.timestamp,
            _ => true,
        }
    }

    /// The pump after an event.
    pub open spec fn after(self, event: PumpEventView) -> PumpView {
        if !self.running {
            self
        } else {
            match event {
                PumpEventView::Frame(frame) => PumpView {
                    reference_ts: Some(self.reference_for(frame)),
                    ..self
                },
                _ => PumpView { running: false, ..self },
            }
        }
    }

    /// What an event has sent to the pad.
    pub open spec fn sends(self, event: PumpEventView) -> Seq<PadMessageView> {
        if !self.running {
            seq![]
        } else {
            match event {
                PumpEventView::Frame(frame) => seq![
                    PadMessageView::Buffer(
                        media_buffer_of(self.descriptor.kind, self.reference_for(frame), frame),
                    ),
                ],
                PumpEventView::End => seq![PadMessageView::Eos, PadMessageView::Drop],
                PumpEventView::Shutdown | PumpEventView::Failed => seq![PadMessageView::Drop],
                PumpEventView::Undelivered => seq![],
            }
        }
    }
}

impl View for TrackPump {
    type V = PumpView;

    closed spec fn view(&self) -> PumpView {
        PumpView {
            descriptor: self.descriptor@,
            reference_ts: self.reference_ts,
            running: self.running,
        }
    }
}

/// The whole payload in one piece: its chunks, one after the other.
pub fn collect_payload(payload: &hang::BufList) -> (data: Vec<u8>)
    ensures
        data@ == chunks_of(*payload).flatten(),
{
    let ghost chunks = chunks_of(*payload);
    let count = payload.num_chunks();
    let mut data: Vec<u8> = Vec::new();
    let mut index: usize = 0;
    assert(chunks.take(0) =~= Seq::empty());
    while index < count
        invariant
            chunks == chunks_of(*payload),
            count == chunks.len(),
            index <= count,
            data@ == chunks.take(index as int).flatten(),
        decreases count - index,
    {
        match payload.get_chunk(index) {
            Some(chunk) => {
                let ghost before = data@;
                data.extend_from_slice(chunk);
                assert(data@ =~= before + bytes_of(*chunk));
            },
            None => {},
        }
        proof {
            chunks.take(index as int).lemma_flatten_push(chunks[index as int]);
            assert(chunks.take(index + 1) =~= chunks.take(index as int).push(chunks[index as int]));
        }
        index += 1;
    }
    assert(chunks.take(count as int) =~= chunks);
    data
}

/// The nanoseconds from one timestamp to a later one, kept to 64 bits.
fn elapsed_nanoseconds(reference_ts: u64, timestamp: u64) -> (pts: u64)
    requires
        reference_ts <= timestamp,
    ensures
        pts == pts_of(reference_ts, timestamp),
{
    let nanos: u128 = (timestamp - reference_ts) as u128 * 1000;
    assert(nanos as u64 == nanos % 0x1_0000_0000_0000_0000) by (bit_vector);
    #[verifier::truncate]
    (nanos as u64)
}

impl TrackPump {
    /// A pump for a track.
    pub fn new(descriptor: TrackDescriptor) -> (pump: TrackPump)
        ensures
            pump@ == PumpView::initial(descriptor@),
    {
        TrackPump { descriptor, reference_ts: None, running: true }
    }

    /// Whether there is anything left to do.
    pub fn is_running(&self) -> (running: bool)
        ensures
            running == self@.running,
    {
        self.running
    }

    /// Whether `step` may be called with a frame of that timestamp.
    pub fn accepts_timestamp(&self, timestamp: u64) -> (accepted: bool)
        ensures
            accepted == (self@.running && self@.reference_ts is Some ==> self@.reference_ts->0
                <= timestamp),
    {
        if !self.running {
            return true;
        }
        match self.reference_ts {
            Some(reference_ts) => reference_ts <= timestamp,
            None => true,
        }
    }

    /// Handles an event; the messages are for the pad, first one first.
    pub fn step(&mut self, event: PumpEvent) -> (messages: Vec<PadMessage>)
        requires
            old(self)@.accepts(event@),
        ensures
            final(self)@ == old(self)@.after(event@),
            messages.len() == old(self)@.sends(event@).len(),
            messages_view(messages@) == old(self)@.sends(event@),
            !old(self)@.running ==> messages.len() == 0,
            old(self)@.running ==> match event {
                PumpEvent::Frame(frame) => {
                    &&& messages.len() == 1
                    &&& messages@[0] matches PadMessage::Buffer(buffer) && {
                        let reference_ts = match old(self)@.reference_ts {
                            Some(reference_ts) => reference_ts,
                            None => frame.timestamp,
                        };
                        &&& buffer.data@ == chunks_of(frame.payload).flatten()
                        &&& buffer.pts == (frame.timestamp - reference_ts) * 1000
                            % 0x1_0000_0000_0000_0000
                        &&& buffer.delta_unit <==> old(self)@.descriptor.kind is Video
                            && !frame.keyframe
                    }
                },
                PumpEvent::End => messages.len() == 2 && messages@[0] is Eos && messages@[1] is Drop,
                PumpEvent::Shutdown | PumpEvent::Failed => messages.len() == 1
                    && messages@[0] is Drop,
                PumpEvent::Undelivered => messages.len() == 0,
            },
    {
        let ghost expected = self@.sends(event@);
        let mut messages: Vec<PadMessage> = Vec::new();
        if !self.running {
            assert(messages_view(messages@) =~= expected);
            return messages;
        }
        match event {
            PumpEvent::Shutdown | PumpEvent::Failed => {
                self.running = false;
                messages.push(PadMessage::Drop);
            },
            PumpEvent::Frame(frame) => {
                let pts = match self.reference_ts {
                    Some(reference_ts) => elapsed_nanoseconds(reference_ts, frame.timestamp),
                    None => {
                        self.reference_ts = Some(frame.timestamp);
                        0
                    },
                };
                let delta_unit = match self.descriptor.kind {
                    TrackKind::Video => !frame.keyframe,
                    TrackKind::Audio => false,
                };
                let data = collect_payload(&frame.payload);
                messages.push(PadMessage::Buffer(MediaBuffer { data, pts, delta_unit }));
            },
            PumpEvent::End => {
                self.running = false;
                messages.push(PadMessage::Eos);
                messages.push(PadMessage::Drop);
            },
            PumpEvent::Undelivered => {
                self.running = false;
            },
        }
        assert(messages_view(messages@) =~= expected);
        messages
    }
}

/// The pump after a run of events.
pub open spec fn pump_after(pump: PumpView, events: Seq<PumpEventView>) -> PumpView
    decreases events.len(),
{
    if events.len() == 0 {
        pump
    } else {
        pump_after(pump, events.drop_last()).after(events.last())
    }
}

/// What a run of events has sent to the pad.
pub open spec fn pump_sends(pump: PumpView, events: Seq<PumpEventView>) -> Seq<PadMessageView>
    decreases events.len(),
{
    if events.len() == 0 {
        seq![]
    } else {
        pump_sends(pump, events.drop_last()) + pump_after(pump, events.drop_last()).sends(
            events.last(),
        )
    }
}

/// The events of frames that are read one after the other.
pub open spec fn frame_events(frames: Seq<TrackFrameView>) -> Seq<PumpEventView> {
    frames.map_values(|frame: TrackFrameView| PumpEventView::Frame(frame))
}

/// Frames none of which lies before the first are all accepted. Each becomes one buffer, in the
/// order in which the frames come, timed from the first of them; and the pump goes on.
pub proof fn law_pump_keeps_frame_order(
    descriptor: TrackDescriptorView,
    frames: Seq<TrackFrameView>,
)
    requires
        forall|i: int|
            0 <= i < frames.len() ==> frames[0].timestamp <= #[trigger] frames[i].timestamp,
    ensures
        forall|i: int|
            0 <= i < frames.len() ==> pump_after(
                PumpView::initial(descriptor),
                frame_events(frames.take(i)),
            ).accepts(PumpEventView::Frame(#[trigger] frames[i])),
        pump_after(PumpView::initial(descriptor), frame_events(frames)).running,
        pump_sends(PumpView::initial(descriptor), frame_events(frames)) == Seq::new(
            frames.len(),
            |i: int|
                PadMessageView::Buffer(
                    media_buffer_of(descriptor.kind, frames[0].timestamp, frames[i]),
                ),
        ),
        ({
            let sent = pump_sends(PumpView::initial(descriptor), frame_events(frames));
            &&& sent.len() == frames.len()
            &&& forall|i: int|
                0 <= i < frames.len() ==> match #[trigger] sent[i] {
                    PadMessageView::Buffer(buffer) => {
                        &&& buffer.data == frames[i].payload
                        &&& buffer.pts == (frames[i].timestamp - frames[0].timestamp) * 1000
                            % 0x1_0000_0000_0000_0000
                        &&& buffer.delta_unit <==> descriptor.kind is Video && !frames[i].keyframe
                    },
                    _ => false,
                }
        }),
{
    lemma_pump_frames(descriptor, frames);
    assert forall|i: int| 0 <= i < frames.len() implies pump_after(
        PumpView::initial(descriptor),
        frame_events(frames.take(i)),
    ).accepts(PumpEventView::Frame(#[trigger] frames[i])) by {
        lemma_pump_frames(descriptor, frames.take(i));
    }
}

proof fn lemma_pump_frames(descriptor: TrackDescriptorView, frames: Seq<TrackFrameView>)
    ensures
        pump_after(PumpView::initial(descriptor), frame_events(frames)) == (PumpView {
            descriptor,
            reference_ts: if frames.len() == 0 {
                None
            } else {
                Some(frames[0].timestamp)
            },
            running: true,
        }),
        pump_sends(PumpView::initial(descriptor), frame_events(frames)) == Seq::new(
            frames.len(),
            |i: int|
                PadMessageView::Buffer(
                    media_buffer_of(descriptor.kind, frames[0].timestamp, frames[i]),
                ),
        ),
    decreases frames.len(),
{
    let events = frame_events(frames);
    let expected = Seq::new(
        frames.len(),
        |i: int|
            PadMessageView::Buffer(media_buffer_of(descriptor.kind, frames[0].timestamp, frames[i])),
    );
    if frames.len() == 0 {
        assert(pump_sends(PumpView::initial(descriptor), events) =~= expected);
    } else {
        lemma_pump_frames(descriptor, frames.drop_last());
        assert(events.drop_last() =~= frame_events(frames.drop_last()));
        assert(pump_sends(PumpView::initial(descriptor), events) =~= expected);
    }
}

/// Whether a run of events is ended by the end of the track: it comes while the pump still runs.
pub open spec fn ends_with_track(pump: PumpView, events: Seq<PumpEventView>) -> bool {
    exists|k: int|
        0 <= k < events.len() && #[trigger] events[k] is End && pump_after(
            pump,
            events.take(k),
        ).running
}

/// The pad is told to go at most once and hears nothing after that. The end of the stream is
/// announced if and only if the track's own end ended the run, and then right before the pad is
/// told to go. And a pump that has stopped has told its pad to go, unless nothing served the pad
/// any more.
pub proof fn law_pump_drops_pad_last(descriptor: TrackDescriptorView, events: Seq<PumpEventView>)
    ensures
        ({
            let sent = pump_sends(PumpView::initial(descriptor), events);
            let running = pump_after(PumpView::initial(descriptor), events).running;
            &&& forall|i: int|
                0 <= i < sent.len() && #[trigger] sent[i] is Drop ==> i == sent.len() - 1
                    && !running
            &&& forall|i: int|
                0 <= i < sent.len() && #[trigger] sent[i] is Eos ==> i == sent.len() - 2
                    && sent.last() is Drop
            &&& (exists|i: int| 0 <= i < sent.len() && #[trigger] sent[i] is Eos)
                <==> ends_with_track(PumpView::initial(descriptor), events)
            &&& !running && !events.contains(PumpEventView::Undelivered) ==> sent.len() > 0
                && sent.last() is Drop
        }),
    decreases events.len(),
{
    let pump = PumpView::initial(descriptor);
    lemma_pump_announces_end(pump, events);
    if events.len() > 0 {
        let earlier = events.drop_last();
        law_pump_drops_pad_last(descriptor, earlier);
        let before = pump_sends(pump, earlier);
        let state = pump_after(pump, earlier);
        let new = state.sends(events.last());
        let sent = pump_sends(pump, events);
        assert(sent == before + new);
        assert forall|event: PumpEventView| earlier.contains(event) implies events.contains(event) by {
            let i = choose|i: int| 0 <= i < earlier.len() && earlier[i] == event;
            assert(events[i] == event);
        }
        assert(events[events.len() - 1] == events.last());
        if !state.running {
            assert(sent =~= before);
        } else {
            assert forall|i: int| 0 <= i < sent.len() && #[trigger] sent[i] is Drop implies i
                == sent.len() - 1 && !pump_after(pump, events).running by {
                if i < before.len() {
                    assert(before[i] == sent[i]);
                } else {
                    assert(new[i - before.len()] == sent[i]);
                }
            }
            assert forall|i: int| 0 <= i < sent.len() && #[trigger] sent[i] is Eos implies i
                == sent.len() - 2 && sent.last() is Drop by {
                if i < before.len() {
                    assert(before[i] == sent[i]);
                    assert(before.last() is Drop);
                    assert(before[before.len() - 1] is Drop);
                } else {
                    assert(new[i - before.len()] == sent[i]);
                }
            }
        }
    }
}

proof fn lemma_pump_announces_end(pump: PumpView, events: Seq<PumpEventView>)
    ensures
        (exists|i: int| 0 <= i < pump_sends(pump, events).len() && #[trigger] pump_sends(
            pump,
            events,
        )[i] is Eos) <==> ends_with_track(pump, events),
    decreases events.len(),
{
    if events.len() > 0 {
        let earlier = events.drop_last();
        let last = events.len() - 1;
        lemma_pump_announces_end(pump, earlier);
        let before = pump_sends(pump, earlier);
        let new = pump_after(pump, earlier).sends(events.last());
        let sent = pump_sends(pump, events);
        assert(events.take(last) =~= earlier);
        if exists|i: int| 0 <= i < sent.len() && #[trigger] sent[i] is Eos {
            let i = choose|i: int| 0 <= i < sent.len() && #[trigger] sent[i] is Eos;
            if i < before.len() {
                assert(before[i] is Eos);
                let k = choose|k: int|
                    0 <= k < earlier.len() && #[trigger] earlier[k] is End && pump_after(
                        pump,
                        earlier.take(k),
                    ).running;
                assert(events[k] is End && events.take(k) =~= earlier.take(k));
            } else {
                assert(new[i - before.len()] is Eos);
                assert(events[last] is End);
            }
        }
        if ends_with_track(pump, events) {
            let k = choose|k: int|
                0 <= k < events.len() && #[trigger] events[k] is End && pump_after(
                    pump,
                    events.take(k),
                ).running;
            if k < last {
                assert(earlier[k] is End && events.take(k) =~= earlier.take(k));
                let i = choose|i: int| 0 <= i < before.len() && #[trigger] before[i] is Eos;
                assert(sent[i] is Eos);
            } else {
                assert(new[0] is Eos);
                assert(sent[before.len() as int] is Eos);
            }
        }
    }
}

/// Buffers of audio tracks never depend on earlier ones; those of video tracks do unless they
/// hold a keyframe.
pub proof fn law_only_video_has_delta_units(
    kind: TrackKind,
    reference_ts: u64,
    frame: TrackFrameView,
)
    ensures
        media_buffer_of(kind, reference_ts, frame).delta_unit <==> kind is Video && !frame.keyframe,
{
}

/// The first frame is presented at zero, and no frame gets the time that stands for none.
pub proof fn law_pts_is_a_time(reference_ts: u64, timestamp: u64)
    requires
        reference_ts <= timestamp,
    ensures
        pts_of(reference_ts, reference_ts) == 0,
        pts_of(reference_ts, timestamp) != u64::MAX,
{
    let nanos = (timestamp - reference_ts) * 1000;
    assert(nanos % 2 == 0);
    assert(nanos % 0x1_0000_0000_0000_0000 % 2 == 0);
}

/// A later frame is not presented before an earlier one, and the times lie as far apart as the
/// timestamps, as long as the track has run for less than 2^64 nanoseconds.
pub proof fn law_pts_keeps_time_order(reference_ts: u64, earlier: u64, later: u64)
    requires
        reference_ts <= earlier <= later,
        (later - reference_ts) * 1000 < 0x1_0000_0000_0000_0000,
    ensures
        pts_of(reference_ts, later) - pts_of(reference_ts, earlier) == (later - earlier) * 1000,
{
}

/// While a pump runs, a frame is answered by one buffer. It holds the whole payload of the frame,
/// whatever else the frame is; it is presented as many nanoseconds after the track's first frame as
/// their timestamps are apart, in 64 bits; and it is a delta unit if and only if it is video and no
/// keyframe. The pump runs on, and measures from the same frame as before.
pub proof fn law_frame_becomes_one_whole_buffer(pump: PumpView, frame: TrackFrameView)
    requires
        pump.running,
        pump.reference_ts matches Some(first) ==> first <= frame.timestamp,
    ensures
        ({
            let event = PumpEventView::Frame(frame);
            let first = match pump.reference_ts {
                Some(first) => first,
                None => frame.timestamp,
            };
            let after = pump.after(event);
            &&& pump.accepts(event)
            &&& pump.sends(event).len() == 1
            &&& match pump.sends(event)[0] {
                PadMessageView::Buffer(buffer) => {
                    &&& buffer.data == frame.payload
                    &&& buffer.pts == (frame.timestamp - first) * 1000 % 0x1_0000_0000_0000_0000
                    &&& buffer.delta_unit <==> pump.descriptor.kind is Video && !frame.keyframe
                },
                _ => false,
            }
            &&& after.running
            &&& after.reference_ts == Some(first)
            &&& after.descriptor == pump.descriptor
        }),
{
}

/// Everything but a frame stops a pump for good. The end of the track is announced before the pad
/// is told to go; a shutdown or a failure just tells it to go; and where nothing is delivered any
/// more, nothing is sent.
pub proof fn law_pump_stops_at_anything_but_a_frame(pump: PumpView, event: PumpEventView)
    ensures
        PumpView::initial(pump.descriptor).running,
        PumpView::initial(pump.descriptor).reference_ts is None,
        PumpView::initial(pump.descriptor).descriptor == pump.descriptor,
        !(event is Frame) ==> !pump.after(event).running && pump.accepts(event),
        !pump.running ==> pump.after(event) == pump && pump.sends(event).len() == 0
            && pump.accepts(event),
        pump.running ==> match event {
            PumpEventView::Frame(_) => pump.sends(event).len() == 1,
            PumpEventView::End => pump.sends(event) == seq![
                PadMessageView::Eos,
                PadMessageView::Drop,
            ],
            PumpEventView::Shutdown => pump.sends(event) == seq![PadMessageView::Drop],
            PumpEventView::Failed => pump.sends(event) == seq![PadMessageView::Drop],
            PumpEventView::Undelivered => pump.sends(event).len() == 0,
        },
{
}

/// A running pump takes a frame if and only if the frame does not lie before the first one.
pub proof fn law_pump_takes_no_frame_before_the_first(pump: PumpView, frame: TrackFrameView)
    requires
        pump.running,
    ensures
        pump.accepts(PumpEventView::Frame(frame)) <==> (pump.reference_ts matches Some(first)
            ==> first <= frame.timestamp),
{
}

/// The time of a frame depends on nothing but how far its timestamp lies behind the first one, and
/// is that span in nanoseconds, in 64 bits.
pub proof fn law_pts_is_the_span_in_nanoseconds(reference_ts: u64, timestamp: u64)
    requires
        reference_ts <= timestamp,
    ensures
        pts_of(reference_ts, timestamp) == (timestamp - reference_ts) * 1000
            % 0x1_0000_0000_0000_0000,
        (timestamp - reference_ts) * 1000 <= u64::MAX ==> pts_of(reference_ts, timestamp) == (
        timestamp - reference_ts) * 1000,
{
}

/// The values of frames, buffers, messages and events have what these hold, in its own place; the
/// payload of a frame is its chunks, one after the other.
pub proof fn law_pump_values_have_every_part(
    frame: TrackFrame,
    buffer: MediaBuffer,
    messages: Seq<PadMessage>,
    event: PumpEvent,
)
    ensures
        frame@.timestamp == frame.timestamp,
        frame@.keyframe == frame.keyframe,
        frame@.payload == chunks_of(frame.payload).flatten(),
        buffer@.data == buffer.data@,
        buffer@.pts == buffer.pts,
        buffer@.delta_unit == buffer.delta_unit,
        messages_view(messages).len() == messages.len(),
        forall|i: int|
            0 <= i < messages.len() ==> match messages[i] {
                PadMessage::Buffer(buffer) => #[trigger] messages_view(messages)[i]
                    == PadMessageView::Buffer(buffer@),
                PadMessage::Eos => messages_view(messages)[i] is Eos,
                PadMessage::Drop => messages_view(messages)[i] is Drop,
            },
        match event {
            PumpEvent::Frame(frame) => event@ == PumpEventView::Frame(frame@),
            PumpEvent::End => event@ is End,
            PumpEvent::Shutdown => event@ is Shutdown,
            PumpEvent::Failed => event@ is Failed,
            PumpEvent::Undelivered => event@ is Undelivered,
        },
{
}

} // verus!
