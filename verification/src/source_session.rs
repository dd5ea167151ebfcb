//! The session of a source element: from the connection to the last track.

use vstd::prelude::*;
use vstd::string::*;

use crate::caps::{track_caps, track_caps_of, Caps, CapsView};
use crate::catalog::{tracks_view, Catalog, PlannedTrack, PlannedTrackView};
use crate::settings::ResolvedSettings;
use crate::track::{TrackDescriptor, TrackDescriptorView};

verus! {

/// How far a track may lag behind, in seconds, before frames are skipped.
pub const MAX_LATENCY_SECS: u64 = 1;

/// Why a session has ended early. `E` is what the transport reports.
#[derive(Debug)]
pub enum SessionError<E> {
    /// The transport failed.
    Transport(E),
    /// There is no broadcast of that name.
    BroadcastNotFound(String),
    /// The broadcast ended before its catalog came.
    CatalogMissing,
    /// An audio track has a codec that no caps are known for.
    UnsupportedAudioCodec,
    /// Nothing takes requests for pads any more.
    ControlPlaneShutDown,
    /// A request for a pad was dropped without an answer.
    PadCreationCancelled,
}

/// The value of a `SessionError`.
pub enum SessionErrorView<E> {
    Transport(E),
    BroadcastNotFound(Seq<char>),
    CatalogMissing,
    UnsupportedAudioCodec,
    ControlPlaneShutDown,
    PadCreationCancelled,
}

impl<E> View for SessionError<E> {
    type V = SessionErrorView<E>;

    open spec fn view(&self) -> SessionErrorView<E> {
        match *self {
            SessionError::Transport(error) => SessionErrorView::Transport(error),
            SessionError::BroadcastNotFound(name) => SessionErrorView::BroadcastNotFound(name@),
            SessionError::CatalogMissing => SessionErrorView::CatalogMissing,
            SessionError::UnsupportedAudioCodec => SessionErrorView::UnsupportedAudioCodec,
            SessionError::ControlPlaneShutDown => SessionErrorView::ControlPlaneShutDown,
            SessionError::PadCreationCancelled => SessionErrorView::PadCreationCancelled,
        }
    }
}

impl<E> SessionError<E> {
    /// The message that reports the error, unless the transport has its own.
    pub fn message(&self) -> (message: Option<String>)
        ensures
            match self@ {
                SessionErrorView::Transport(_) => message is None,
                SessionErrorView::BroadcastNotFound(name) => message is Some && message->0@
                    == "Broadcast '"@ + name + "' not found"@,
                SessionErrorView::CatalogMissing => message is Some && message->0@
                    == "catalog missing"@,
                SessionErrorView::UnsupportedAudioCodec => message is Some && message->0@
                    == "unsupported audio codec"@,
                SessionErrorView::ControlPlaneShutDown => message is Some && message->0@
                    == "control plane shut down"@,
                SessionErrorView::PadCreationCancelled => message is Some && message->0@
                    == "pad creation cancelled"@,
            },
    {
        match self {
            SessionError::Transport(_) => None,
            SessionError::BroadcastNotFound(name) => Some(
                "Broadcast '".to_string().concat(name.as_str()).concat("' not found"),
            ),
            SessionError::CatalogMissing => Some("catalog missing".to_string()),
            SessionError::UnsupportedAudioCodec => Some("unsupported audio codec".to_string()),
            SessionError::ControlPlaneShutDown => Some("control plane shut down".to_string()),
            SessionError::PadCreationCancelled => Some("pad creation cancelled".to_string()),
        }
    }
}

/// The value of how a session has ended.
pub open spec fn ending_view<E>(ending: Result<(), SessionError<E>>) -> Result<
    (),
    SessionErrorView<E>,
> {
    match ending {
        Ok(done) => Ok(done),
        Err(error) => Err(error@),
    }
}

/// What became of a request for a pad: whether it could be sent, and the answer, if one came.
/// `R` is what the answer holds.
pub fn request_pad<R, E>(sent: bool, answer: Option<R>) -> (pad: Result<R, SessionError<E>>)
    ensures
        pad == (if !sent {
            Err(SessionError::<E>::ControlPlaneShutDown)
        } else {
            match answer {
                Some(answer) => Ok(answer),
                None => Err(SessionError::<E>::PadCreationCancelled),
            }
        }),
{
    if !sent {
        return Err(SessionError::ControlPlaneShutDown);
    }
    match answer {
        Some(answer) => Ok(answer),
        None => Err(SessionError::PadCreationCancelled),
    }
}

/// What came of the action that the session last asked for.
#[derive(Debug)]
pub enum SourceEvent<E> {
    /// It was done.
    Done,
    /// The transport failed.
    Failed(E),
    /// There is no broadcast of the name.
    BroadcastMissing,
    /// The catalog came, or the broadcast ended without one.
    Catalog(Option<Catalog>),
    /// The pad was not made, for the reason that `request_pad` gives.
    PadRefused(SessionError<E>),
}

/// The value of a `SourceEvent`.
pub enum SourceEventView<E> {
    Done,
    Failed(E),
    BroadcastMissing,
    Catalog(Option<Seq<PlannedTrackView>>),
    PadRefused(SessionErrorView<E>),
}

impl<E> View for SourceEvent<E> {
    type V = SourceEventView<E>;

    open spec fn view(&self) -> SourceEventView<E> {
        match *self {
            SourceEvent::Done => SourceEventView::Done,
            SourceEvent::Failed(error) => SourceEventView::Failed(error),
            SourceEvent::BroadcastMissing => SourceEventView::BroadcastMissing,
            SourceEvent::Catalog(catalog) => SourceEventView::Catalog(
                match catalog {
                    Some(catalog) => Some(catalog@),
                    None => None,
                },
            ),
            SourceEvent::PadRefused(error) => SourceEventView::PadRefused(error@),
        }
    }
}

/// What the session wants done next.
#[derive(Debug)]
pub enum SourceAction<E> {
    /// Set up a client.
    InitClient { disable_verify: bool },
    /// Connect to the URL.
    Connect(url::Url),
    /// Open a session on the connection, in order to subscribe.
    Handshake,
    /// Look for the broadcast of that name.
    ConsumeBroadcast(String),
    /// Subscribe to the catalog and wait for it.
    ReadCatalog,
    /// Have a pad made for the track.
    RequestPad { descriptor: TrackDescriptor, caps: Caps },
    /// Subscribe to the track and carry its frames to its pad.
    StartPump { descriptor: TrackDescriptor, max_latency_secs: u64 },
    /// Announce that no more pads will come, if anyone still listens.
    AnnounceNoMorePads,
    /// Wait until the pump, the first one being 0, has come to its end, whichever way.
    AwaitPump(usize),
    /// The session is over.
    Finish(Result<(), SessionError<E>>),
    /// The event answers nothing that was asked: carry on with what was asked last.
    Carry,
}

/// The value of a `SourceAction`.
pub enum SourceActionView<E> {
    InitClient { disable_verify: bool },
    Connect(url::Url),
    Handshake,
    ConsumeBroadcast(Seq<char>),
    ReadCatalog,
    RequestPad { descriptor: TrackDescriptorView, caps: CapsView },
    StartPump { descriptor: TrackDescriptorView, max_latency_secs: u64 },
    AnnounceNoMorePads,
    AwaitPump(int),
    Finish(Result<(), SessionErrorView<E>>),
    Carry,
}

impl<E> View for SourceAction<E> {
    type V = SourceActionView<E>;

    open spec fn view(&self) -> SourceActionView<E> {
        match *self {
            SourceAction::InitClient { disable_verify } => SourceActionView::InitClient {
                disable_verify,
            },
            SourceAction::Connect(url) => SourceActionView::Connect(url),
            SourceAction::Handshake => SourceActionView::Handshake,
            SourceAction::ConsumeBroadcast(name) => SourceActionView::ConsumeBroadcast(name@),
            SourceAction::ReadCatalog => SourceActionView::ReadCatalog,
            SourceAction::RequestPad { descriptor, caps } => SourceActionView::RequestPad {
                descriptor: descriptor@,
                caps: caps@,
            },
            SourceAction::StartPump { descriptor, max_latency_secs } => SourceActionView::StartPump {
                descriptor: descriptor@,
                max_latency_secs,
            },
            SourceAction::AnnounceNoMorePads => SourceActionView::AnnounceNoMorePads,
            SourceAction::AwaitPump(index) => SourceActionView::AwaitPump(index as int),
            SourceAction::Finish(ending) => SourceActionView::Finish(ending_view(ending)),
            SourceAction::Carry => SourceActionView::Carry,
        }
    }
}

/// What a session waits for.
enum SourceStage {
    Client { url: url::Url, broadcast: String },
    Connection { broadcast: String },
    Handshake { broadcast: String },
    Broadcast { broadcast: String },
    Catalog,
    Pad { tracks: Vec<PlannedTrack>, index: usize },
    Pump { tracks: Vec<PlannedTrack>, index: usize },
    Announcement { pumps: usize },
    Pumps { pumps: usize, index: usize },
    Finished,
}

/// A session: what it waits for, and what it needs to know for the rest of its way.
pub enum SourceStageView {
    /// The client is being set up.
    Client { url: url::Url, broadcast: Seq<char> },
    /// The connection is being made.
    Connection { broadcast: Seq<char> },
    /// The session is being opened.
    Handshake { broadcast: Seq<char> },
    /// The broadcast is being looked for.
    Broadcast { broadcast: Seq<char> },
    /// The catalog is awaited.
    Catalog,
    /// The pad of the track at the index is being made.
    Pad { tracks: Seq<PlannedTrackView>, index: int },
    /// The pump of the track at the index is being started.
    Pump { tracks: Seq<PlannedTrackView>, index: int },
    /// The last pad is being announced.
    Announcement { pumps: int },
    /// The pump at the index is awaited.
    Pumps { pumps: int, index: int },
    /// The session is over.
    Finished,
}

impl SourceStage {
    spec fn wf(self) -> bool {
        match self {
            SourceStage::Pad { tracks, index } => index < tracks.len(),
            SourceStage::Pump { tracks, index } => index < tracks.len(),
            SourceStage::Pumps { pumps, index } => index < pumps,
            _ => true,
        }
    }

    spec fn view(self) -> SourceStageView {
        match self {
            SourceStage::Client { url, broadcast } => SourceStageView::Client {
                url,
                broadcast: broadcast@,
            },
            SourceStage::Connection { broadcast } => SourceStageView::Connection {
                broadcast: broadcast@,
            },
            SourceStage::Handshake { broadcast } => SourceStageView::Handshake {
                broadcast: broadcast@,
            },
            SourceStage::Broadcast { broadcast } => SourceStageView::Broadcast {
                broadcast: broadcast@,
            },
            SourceStage::Catalog => SourceStageView::Catalog,
            SourceStage::Pad { tracks, index } => SourceStageView::Pad {
                tracks: tracks_view(tracks@),
                index: index as int,
            },
            SourceStage::Pump { tracks, index } => SourceStageView::Pump {
                tracks: tracks_view(tracks@),
                index: index as int,
            },
            SourceStage::Announcement { pumps } => SourceStageView::Announcement {
                pumps: pumps as int,
            },
            SourceStage::Pumps { pumps, index } => SourceStageView::Pumps {
                pumps: pumps as int,
                index: index as int,
            },
            SourceStage::Finished => SourceStageView::Finished,
        }
    }
}

/// The session of a source element.
pub struct SourceSession {
    stage: SourceStage,
}

impl View for SourceSession {
    type V = SourceStageView;

    closed spec fn view(&self) -> SourceStageView {
        self.stage.view()
    }
}

/// The end of a session.
pub open spec fn finished<E>(ending: Result<(), SessionErrorView<E>>) -> (
    SourceStageView,
    SourceActionView<E>,
) {
    (SourceStageView::Finished, SourceActionView::Finish(ending))
}

/// What comes when all tracks before the index have their pumps: a pad for the track at the
/// index, or the announcement that there are no more.
pub open spec fn turn_of<E>(tracks: Seq<PlannedTrackView>, index: int) -> (
    SourceStageView,
    SourceActionView<E>,
) {
    if index < tracks.len() {
        match track_caps_of(tracks[index].config) {
            Ok(caps) => (
                SourceStageView::Pad { tracks, index },
                SourceActionView::RequestPad { descriptor: tracks[index].descriptor, caps },
            ),
            Err(_) => finished(Err(SessionErrorView::UnsupportedAudioCodec)),
        }
    } else {
        (
            SourceStageView::Announcement { pumps: tracks.len() as int },
            SourceActionView::AnnounceNoMorePads,
        )
    }
}

/// What comes when all pumps before the index have come to their end.
pub open spec fn pumps_turn_of<E>(pumps: int, index: int) -> (SourceStageView, SourceActionView<E>) {
    if index < pumps {
        (SourceStageView::Pumps { pumps, index }, SourceActionView::AwaitPump(index))
    } else {
        finished(Ok(()))
    }
}

/// The start of a session.
pub open spec fn source_start<E>(settings: ResolvedSettings) -> (
    SourceStageView,
    SourceActionView<E>,
) {
    (
        SourceStageView::Client { url: settings.url, broadcast: settings.broadcast@ },
        SourceActionView::InitClient { disable_verify: settings.tls_disable_verify },
    )
}

/// What a session does on an event.
pub open spec fn source_next<E>(stage: SourceStageView, event: SourceEventView<E>) -> (
    SourceStageView,
    SourceActionView<E>,
) {
    match (stage, event) {
        (SourceStageView::Client { url, broadcast }, SourceEventView::Done) => (
            SourceStageView::Connection { broadcast },
            SourceActionView::Connect(url),
        ),
        (SourceStageView::Connection { broadcast }, SourceEventView::Done) => (
            SourceStageView::Handshake { broadcast },
            SourceActionView::Handshake,
        ),
        (SourceStageView::Handshake { broadcast }, SourceEventView::Done) => (
            SourceStageView::Broadcast { broadcast },
            SourceActionView::ConsumeBroadcast(broadcast),
        ),
        (SourceStageView::Broadcast { .. }, SourceEventView::Done) => (
            SourceStageView::Catalog,
            SourceActionView::ReadCatalog,
        ),
        (SourceStageView::Broadcast { broadcast }, SourceEventView::BroadcastMissing) => finished(
            Err(SessionErrorView::BroadcastNotFound(broadcast)),
        ),
        (SourceStageView::Catalog, SourceEventView::Catalog(Some(tracks))) => turn_of(tracks, 0),
        (SourceStageView::Catalog, SourceEventView::Catalog(None)) => finished(
            Err(SessionErrorView::CatalogMissing),
        ),
        (
            SourceStageView::Client { .. }
            | SourceStageView::Connection { .. }
            | SourceStageView::Handshake { .. }
            | SourceStageView::Catalog,
            SourceEventView::Failed(error),
        ) => finished(Err(SessionErrorView::Transport(error))),
        (SourceStageView::Pad { tracks, index }, SourceEventView::Done) => (
            SourceStageView::Pump { tracks, index },
            SourceActionView::StartPump {
                descriptor: tracks[index].descriptor,
                max_latency_secs: MAX_LATENCY_SECS,
            },
        ),
        (SourceStageView::Pad { .. }, SourceEventView::PadRefused(error)) => finished(Err(error)),
        (SourceStageView::Pump { tracks, index }, SourceEventView::Done) => turn_of(
            tracks,
            index + 1,
        ),
        (SourceStageView::Announcement { pumps }, SourceEventView::Done) => pumps_turn_of(pumps, 0),
        (SourceStageView::Pumps { pumps, index }, SourceEventView::Done) => pumps_turn_of(
            pumps,
            index + 1,
        ),
        _ => (stage, SourceActionView::Carry),
    }
}

impl SourceSession {
    /// Whether the session is as its operations leave it.
    pub closed spec fn wf(&self) -> bool {
        self.stage.wf()
    }

    /// A session with these settings, and the first thing that it wants done.
    pub fn start<E>(settings: ResolvedSettings) -> (started: (SourceSession, SourceAction<E>))
        ensures
            started.0.wf(),
            (started.0@, started.1@) == source_start::<E>(settings),
    {
        let disable_verify = settings.tls_disable_verify;
        let stage = SourceStage::Client { url: settings.url, broadcast: settings.broadcast };
        (SourceSession { stage }, SourceAction::InitClient { disable_verify })
    }

    /// Ends the session.
    fn finish<E>(ending: Result<(), SessionError<E>>) -> (next: (SourceSession, SourceAction<E>))
        ensures
            next.0.wf(),
            (next.0@, next.1@) == finished(ending_view(ending)),
    {
        (SourceSession { stage: SourceStage::Finished }, SourceAction::Finish(ending))
    }

    /// Goes on with the track at the index.
    fn turn<E>(tracks: Vec<PlannedTrack>, index: usize) -> (next: (SourceSession, SourceAction<E>))
        ensures
            next.0.wf(),
            (next.0@, next.1@) == turn_of::<E>(tracks_view(tracks@), index as int),
    {
        if index < tracks.len() {
            match track_caps(&tracks[index].config) {
                Ok(caps) => {
                    let descriptor = tracks[index].descriptor.clone();
                    let stage = SourceStage::Pad { tracks, index };
                    (SourceSession { stage }, SourceAction::RequestPad { descriptor, caps })
                },
                Err(_) => SourceSession::finish(Err(SessionError::UnsupportedAudioCodec)),
            }
        } else {
            let stage = SourceStage::Announcement { pumps: tracks.len() };
            (SourceSession { stage }, SourceAction::AnnounceNoMorePads)
        }
    }

    /// Goes on with waiting for the pump at the index.
    fn pumps_turn<E>(pumps: usize, index: usize) -> (next: (SourceSession, SourceAction<E>))
        ensures
            next.0.wf(),
            (next.0@, next.1@) == pumps_turn_of::<E>(pumps as int, index as int),
    {
        if index < pumps {
            let stage = SourceStage::Pumps { pumps, index };
            (SourceSession { stage }, SourceAction::AwaitPump(index))
        } else {
            SourceSession::finish(Ok(()))
        }
    }

    /// Whether the session is over.
    pub fn is_finished(&self) -> (over: bool)
        ensures
            over == (self@ is Finished),
    {
        match self.stage {
            SourceStage::Finished => true,
            _ => false,
        }
    }

    /// Handles an event: the session from then on, and what it wants done next.
    pub fn step<E>(self, event: SourceEvent<E>) -> (next: (SourceSession, SourceAction<E>))
        requires
            self.wf(),
        ensures
            next.0.wf(),
            (next.0@, next.1@) == source_next(self@, event@),
    {
        match (self.stage, event) {
            (SourceStage::Client { url, broadcast }, SourceEvent::Done) => {
                let stage = SourceStage::Connection { broadcast };
                (SourceSession { stage }, SourceAction::Connect(url))
            },
            (SourceStage::Connection { broadcast }, SourceEvent::Done) => {
                let stage = SourceStage::Handshake { broadcast };
                (SourceSession { stage }, SourceAction::Handshake)
            },
            (SourceStage::Handshake { broadcast }, SourceEvent::Done) => {
                let name = broadcast.clone();
                let stage = SourceStage::Broadcast { broadcast };
                (SourceSession { stage }, SourceAction::ConsumeBroadcast(name))
            },
            (SourceStage::Broadcast { .. }, SourceEvent::Done) => {
                (SourceSession { stage: SourceStage::Catalog }, SourceAction::ReadCatalog)
            },
            (SourceStage::Broadcast { broadcast }, SourceEvent::BroadcastMissing) => {
                SourceSession::finish(Err(SessionError::BroadcastNotFound(broadcast)))
            },
            (SourceStage::Catalog, SourceEvent::Catalog(Some(catalog))) => {
                SourceSession::turn(catalog.into_tracks(), 0)
            },
            (SourceStage::Catalog, SourceEvent::Catalog(None)) => {
                SourceSession::finish(Err(SessionError::CatalogMissing))
            },
            (
                SourceStage::Client { .. }
                | SourceStage::Connection { .. }
                | SourceStage::Handshake { .. }
                | SourceStage::Catalog,
                SourceEvent::Failed(error),
            ) => SourceSession::finish(Err(SessionError::Transport(error))),
            (SourceStage::Pad { tracks, index }, SourceEvent::Done) => {
                let descriptor = tracks[index].descriptor.clone();
                let stage = SourceStage::Pump { tracks, index };
                (
                    SourceSession { stage },
                    SourceAction::StartPump { descriptor, max_latency_secs: MAX_LATENCY_SECS },
                )
            },
            (SourceStage::Pad { .. }, SourceEvent::PadRefused(error)) => {
                SourceSession::finish(Err(error))
            },
            (SourceStage::Pump { tracks, index }, SourceEvent::Done) => {
                SourceSession::turn(tracks, index + 1)
            },
            (SourceStage::Announcement { pumps }, SourceEvent::Done) => {
                SourceSession::pumps_turn(pumps, 0)
            },
            (SourceStage::Pumps { pumps, index }, SourceEvent::Done) => {
                SourceSession::pumps_turn(pumps, index + 1)
            },
            (stage, _) => (SourceSession { stage }, SourceAction::Carry),
        }
    }
}

/// The session after a run of events.
pub open spec fn source_after<E>(
    stage: SourceStageView,
    events: Seq<SourceEventView<E>>,
) -> SourceStageView
    decreases events.len(),
{
    if events.len() == 0 {
        stage
    } else {
        source_next(source_after(stage, events.drop_last()), events.last()).0
    }
}

/// What the session has wanted done on a run of events, one action for each of them.
pub open spec fn source_actions<E>(
    stage: SourceStageView,
    events: Seq<SourceEventView<E>>,
) -> Seq<SourceActionView<E>>
    decreases events.len(),
{
    if events.len() == 0 {
        seq![]
    } else {
        source_actions(stage, events.drop_last()).push(
            source_next(source_after(stage, events.drop_last()), events.last()).1,
        )
    }
}

/// That many actions done.
pub open spec fn all_done<E>(count: int) -> Seq<SourceEventView<E>> {
    Seq::new(count as nat, |i: int| SourceEventView::Done)
}

/// What is wanted until the catalog is awaited.
pub open spec fn setup_actions<E>(settings: ResolvedSettings) -> Seq<SourceActionView<E>> {
    seq![
        SourceActionView::Connect(settings.url),
        SourceActionView::Handshake,
        SourceActionView::ConsumeBroadcast(settings.broadcast@),
        SourceActionView::ReadCatalog,
    ]
}

/// What is wanted for the first tracks of a catalog: for each a pad, then its pump.
pub open spec fn track_actions<E>(
    tracks: Seq<PlannedTrackView>,
    count: int,
) -> Seq<SourceActionView<E>> {
    Seq::new(
        (2 * count) as nat,
        |i: int|
            if i % 2 == 0 {
                SourceActionView::RequestPad {
                    descriptor: tracks[i / 2].descriptor,
                    caps: track_caps_of(tracks[i / 2].config)->Ok_0,
                }
            } else {
                SourceActionView::StartPump {
                    descriptor: tracks[i / 2].descriptor,
                    max_latency_secs: MAX_LATENCY_SECS,
                }
            },
    )
}

/// What is wanted when pumps are awaited.
pub open spec fn await_actions<E>(count: int) -> Seq<SourceActionView<E>> {
    Seq::new(count as nat, |i: int| SourceActionView::AwaitPump(i))
}

/// Whether caps are known for the first tracks of a catalog.
pub open spec fn supported(tracks: Seq<PlannedTrackView>, count: int) -> bool {
    forall|i: int| 0 <= i < count ==> track_caps_of((#[trigger] tracks[i]).config) is Ok
}

proof fn lemma_source_run_split<E>(
    stage: SourceStageView,
    first: Seq<SourceEventView<E>>,
    second: Seq<SourceEventView<E>>,
)
    ensures
        source_after(stage, first + second) == source_after(source_after(stage, first), second),
        source_actions(stage, first + second) == source_actions(stage, first) + source_actions(
            source_after(stage, first),
            second,
        ),
        source_actions(stage, first + second).len() == first.len() + second.len(),
    decreases second.len(),
{
    lemma_source_action_count(stage, first + second);
    if second.len() == 0 {
        assert(first + second =~= first);
        assert(source_actions(stage, first) + source_actions(source_after(stage, first), second)
            =~= source_actions(stage, first));
    } else {
        lemma_source_run_split(stage, first, second.drop_last());
        assert((first + second).drop_last() =~= first + second.drop_last());
        assert(source_actions(stage, first + second) =~= source_actions(stage, first)
            + source_actions(source_after(stage, first), second));
    }
}

proof fn lemma_source_action_count<E>(stage: SourceStageView, events: Seq<SourceEventView<E>>)
    ensures
        source_actions(stage, events).len() == events.len(),
    decreases events.len(),
{
    if events.len() > 0 {
        lemma_source_action_count(stage, events.drop_last());
    }
}

/// One event.
proof fn lemma_source_single<E>(stage: SourceStageView, event: SourceEventView<E>)
    ensures
        source_after(stage, seq![event]) == source_next(stage, event).0,
        source_actions(stage, seq![event]) == seq![source_next(stage, event).1],
{
    let events = seq![event];
    assert(events.drop_last() =~= seq![]);
    reveal_with_fuel(source_after, 2);
    reveal_with_fuel(source_actions, 2);
    assert(source_actions(stage, events) =~= seq![source_next(stage, event).1]);
}

proof fn lemma_source_setup<E>(settings: ResolvedSettings)
    ensures
        source_after(source_start::<E>(settings).0, all_done::<E>(4)) == SourceStageView::Catalog,
        source_actions(source_start::<E>(settings).0, all_done::<E>(4)) == setup_actions::<E>(
            settings,
        ),
{
    let start = source_start::<E>(settings).0;
    assert(all_done::<E>(4).drop_last() =~= all_done::<E>(3));
    assert(all_done::<E>(3).drop_last() =~= all_done::<E>(2));
    assert(all_done::<E>(2).drop_last() =~= all_done::<E>(1));
    assert(all_done::<E>(1).drop_last() =~= all_done::<E>(0));
    reveal_with_fuel(source_after, 5);
    reveal_with_fuel(source_actions, 5);
    assert(source_actions(start, all_done::<E>(4)) =~= setup_actions::<E>(settings));
}

/// With the catalog and pads and pumps for its first tracks, it is the next track's turn.
proof fn lemma_source_tracks<E>(tracks: Seq<PlannedTrackView>, count: int)
    requires
        0 <= count <= tracks.len(),
        supported(tracks, count),
    ensures
        ({
            let events = seq![SourceEventView::<E>::Catalog(Some(tracks))] + all_done::<E>(
                2 * count,
            );
            &&& source_after(SourceStageView::Catalog, events) == turn_of::<E>(tracks, count).0
            &&& source_actions(SourceStageView::Catalog, events) == track_actions::<E>(
                tracks,
                count,
            ).push(turn_of::<E>(tracks, count).1)
        }),
    decreases count,
{
    let stage = SourceStageView::Catalog;
    let first = seq![SourceEventView::<E>::Catalog(Some(tracks))];
    let events = first + all_done::<E>(2 * count);
    if count == 0 {
        assert(events =~= first);
        lemma_source_single(stage, first[0]);
        assert(source_actions(stage, events) =~= track_actions::<E>(tracks, 0).push(
            turn_of::<E>(tracks, 0).1,
        ));
    } else {
        let last = count - 1;
        let before = first + all_done::<E>(2 * last);
        assert(supported(tracks, last));
        lemma_source_tracks::<E>(tracks, last);
        assert(track_caps_of(tracks[last].config) is Ok);
        assert(events =~= before + seq![SourceEventView::Done] + seq![SourceEventView::Done]);
        let pad = SourceStageView::Pad { tracks, index: last };
        let pump = SourceStageView::Pump { tracks, index: last };
        lemma_source_run_split(stage, before, seq![SourceEventView::Done]);
        lemma_source_single(pad, SourceEventView::<E>::Done);
        lemma_source_run_split(
            stage,
            before + seq![SourceEventView::Done],
            seq![SourceEventView::Done],
        );
        lemma_source_single(pump, SourceEventView::<E>::Done);
        assert(source_actions(stage, events) =~= track_actions::<E>(tracks, last).push(
            turn_of::<E>(tracks, last).1,
        ) + seq![source_next(pad, SourceEventView::<E>::Done).1] + seq![
            source_next(pump, SourceEventView::<E>::Done).1,
        ]);
        assert((2 * last) / 2 == last && (2 * last + 1) / 2 == last);
        assert(source_actions(stage, events) =~= track_actions::<E>(tracks, count).push(
            turn_of::<E>(tracks, count).1,
        ));
    }
}

/// With the announcement made and the first pumps at their end, it is the next pump's turn.
proof fn lemma_source_pumps<E>(pumps: int, count: int)
    requires
        0 <= count <= pumps,
    ensures
        ({
            let stage = SourceStageView::Announcement { pumps };
            let events = all_done::<E>(count + 1);
            &&& source_after(stage, events) == pumps_turn_of::<E>(pumps, count).0
            &&& source_actions(stage, events) == await_actions::<E>(count).push(
                pumps_turn_of::<E>(pumps, count).1,
            )
        }),
    decreases count,
{
    let stage = SourceStageView::Announcement { pumps };
    let events = all_done::<E>(count + 1);
    if count == 0 {
        assert(events =~= seq![SourceEventView::Done]);
        lemma_source_single(stage, SourceEventView::<E>::Done);
        assert(source_actions(stage, events) =~= await_actions::<E>(0).push(
            pumps_turn_of::<E>(pumps, 0).1,
        ));
    } else {
        lemma_source_pumps::<E>(pumps, count - 1);
        assert(events.drop_last() =~= all_done::<E>(count));
        assert(source_actions(stage, events) =~= await_actions::<E>(count).push(
            pumps_turn_of::<E>(pumps, count).1,
        ));
    }
}

/// A session in which everything that is asked for is done connects to the URL, finds the
/// broadcast and reads its catalog; gives each track a pad and then a pump, one track after the
/// other in the order of the catalog; announces that there are no more pads; waits for each
/// pump; and ends well.
pub proof fn law_session_serves_every_track<E>(
    settings: ResolvedSettings,
    tracks: Seq<PlannedTrackView>,
)
    requires
        supported(tracks, tracks.len() as int),
    ensures
        ({
            let start = source_start::<E>(settings).0;
            let count = tracks.len() as int;
            let events = all_done::<E>(4) + seq![SourceEventView::Catalog(Some(tracks))]
                + all_done::<E>(3 * count + 1);
            &&& source_after(start, events) is Finished
            &&& source_actions(start, events) == setup_actions::<E>(settings) + track_actions::<E>(
                tracks,
                count,
            ) + seq![SourceActionView::AnnounceNoMorePads] + await_actions::<E>(count) + seq![
                SourceActionView::Finish(Ok(())),
            ]
        }),
{
    let start = source_start::<E>(settings).0;
    let count = tracks.len() as int;
    let catalog = seq![SourceEventView::<E>::Catalog(Some(tracks))];
    let setup = all_done::<E>(4);
    let serve = catalog + all_done::<E>(2 * count);
    let wait = all_done::<E>(count + 1);
    let events = setup + catalog + all_done::<E>(3 * count + 1);
    assert(events =~= setup + serve + wait);
    lemma_source_setup::<E>(settings);
    lemma_source_tracks::<E>(tracks, count);
    lemma_source_pumps::<E>(count, count);
    lemma_source_run_split(start, setup, serve);
    lemma_source_run_split(start, setup + serve, wait);
    assert(source_actions(start, events) =~= setup_actions::<E>(settings) + track_actions::<E>(
        tracks,
        count,
    ) + seq![SourceActionView::AnnounceNoMorePads] + await_actions::<E>(count) + seq![
        SourceActionView::Finish(Ok(())),
    ]);
}

/// The first track that no caps are known for ends the session with that error. The tracks
/// before it have their pads and pumps by then, and no further pad is asked for.
pub proof fn law_session_ends_at_unsupported_codec<E>(
    settings: ResolvedSettings,
    tracks: Seq<PlannedTrackView>,
    count: int,
)
    requires
        0 <= count < tracks.len(),
        supported(tracks, count),
        track_caps_of(tracks[count].config) is Err,
    ensures
        ({
            let start = source_start::<E>(settings).0;
            let events = all_done::<E>(4) + seq![SourceEventView::Catalog(Some(tracks))]
                + all_done::<E>(2 * count);
            &&& source_after(start, events) is Finished
            &&& source_actions(start, events) == setup_actions::<E>(settings) + track_actions::<E>(
                tracks,
                count,
            ) + seq![
                SourceActionView::Finish(Err(SessionErrorView::UnsupportedAudioCodec)),
            ]
        }),
{
    let start = source_start::<E>(settings).0;
    let catalog = seq![SourceEventView::<E>::Catalog(Some(tracks))];
    let setup = all_done::<E>(4);
    let serve = catalog + all_done::<E>(2 * count);
    let events = setup + catalog + all_done::<E>(2 * count);
    assert(events =~= setup + serve);
    lemma_source_setup::<E>(settings);
    lemma_source_tracks::<E>(tracks, count);
    lemma_source_run_split(start, setup, serve);
    assert(source_actions(start, events) =~= setup_actions::<E>(settings) + track_actions::<E>(
        tracks,
        count,
    ) + seq![SourceActionView::Finish(Err(SessionErrorView::UnsupportedAudioCodec))]);
}

/// A pad that is refused ends the session with the reason. The tracks before it have their pads
/// and pumps by then, and no further pad is asked for.
pub proof fn law_session_ends_at_refused_pad<E>(
    settings: ResolvedSettings,
    tracks: Seq<PlannedTrackView>,
    count: int,
    error: SessionErrorView<E>,
)
    requires
        0 <= count < tracks.len(),
        supported(tracks, count + 1),
    ensures
        ({
            let start = source_start::<E>(settings).0;
            let events = all_done::<E>(4) + seq![SourceEventView::Catalog(Some(tracks))]
                + all_done::<E>(2 * count) + seq![SourceEventView::PadRefused(error)];
            &&& source_after(start, events) is Finished
            &&& source_actions(start, events) == setup_actions::<E>(settings) + track_actions::<E>(
                tracks,
                count,
            ) + seq![
                SourceActionView::RequestPad {
                    descriptor: tracks[count].descriptor,
                    caps: track_caps_of(tracks[count].config)->Ok_0,
                },
                SourceActionView::Finish(Err(error)),
            ]
        }),
{
    let start = source_start::<E>(settings).0;
    let catalog = seq![SourceEventView::<E>::Catalog(Some(tracks))];
    let setup = all_done::<E>(4);
    let serve = catalog + all_done::<E>(2 * count);
    let refusal = seq![SourceEventView::<E>::PadRefused(error)];
    let events = setup + catalog + all_done::<E>(2 * count) + refusal;
    assert(events =~= setup + serve + refusal);
    assert(track_caps_of(tracks[count].config) is Ok);
    lemma_source_setup::<E>(settings);
    lemma_source_tracks::<E>(tracks, count);
    lemma_source_run_split(start, setup, serve);
    lemma_source_run_split(start, setup + serve, refusal);
    lemma_source_single(turn_of::<E>(tracks, count).0, refusal[0]);
    assert(source_actions(start, events) =~= setup_actions::<E>(settings) + track_actions::<E>(
        tracks,
        count,
    ) + seq![
        SourceActionView::RequestPad {
            descriptor: tracks[count].descriptor,
            caps: track_caps_of(tracks[count].config)->Ok_0,
        },
        SourceActionView::Finish(Err(error)),
    ]);
}

/// Whether a session that waits for this can hear of a failure, and how it then ends.
pub open spec fn failure_of<E>(stage: SourceStageView, event: SourceEventView<E>) -> Option<
    SessionErrorView<E>,
> {
    match (stage, event) {
        (
            SourceStageView::Client { .. }
            | SourceStageView::Connection { .. }
            | SourceStageView::Handshake { .. }
            | SourceStageView::Catalog,
            SourceEventView::Failed(error),
        ) => Some(SessionErrorView::Transport(error)),
        (SourceStageView::Broadcast { broadcast }, SourceEventView::BroadcastMissing) => Some(
            SessionErrorView::BroadcastNotFound(broadcast),
        ),
        (SourceStageView::Catalog, SourceEventView::Catalog(None)) => Some(
            SessionErrorView::CatalogMissing,
        ),
        (SourceStageView::Pad { .. }, SourceEventView::PadRefused(error)) => Some(error),
        _ => None,
    }
}

/// Whatever the session is told, it ends at the first failure, with that failure; once it has
/// ended it wants nothing more done; and it ends only once.
pub proof fn law_session_ends_once<E>(
    stage: SourceStageView,
    events: Seq<SourceEventView<E>>,
    event: SourceEventView<E>,
)
    requires
        !(stage is Finished),
    ensures
        failure_of(source_after(stage, events), event) matches Some(error) ==> source_next(
            source_after(stage, events),
            event,
        ) == finished(Err(error)),
        source_after(stage, events) is Finished <==> exists|i: int|
            0 <= i < events.len() && #[trigger] source_actions(stage, events)[i] is Finish,
        forall|i: int, j: int|
            0 <= i < j < events.len() && #[trigger] source_actions(stage, events)[i] is Finish
                ==> #[trigger] source_actions(stage, events)[j] is Carry,
    decreases events.len(),
{
    lemma_source_action_count(stage, events);
    if events.len() > 0 {
        let earlier = events.drop_last();
        law_session_ends_once(stage, earlier, event);
        lemma_source_action_count(stage, earlier);
        let before = source_actions(stage, earlier);
        let actions = source_actions(stage, events);
        let last = events.len() - 1;
        assert(forall|i: int| 0 <= i < last ==> actions[i] == before[i]);
        assert(actions[last] is Finish || source_after(stage, events) == source_after(
            stage,
            earlier,
        ) || !(source_after(stage, events) is Finished));
        if source_after(stage, events) is Finished {
            if source_after(stage, earlier) is Finished {
                let i = choose|i: int| 0 <= i < earlier.len() && #[trigger] before[i] is Finish;
                assert(actions[i] is Finish);
            } else {
                assert(actions[last] is Finish);
            }
        }
        if exists|i: int| 0 <= i < events.len() && #[trigger] actions[i] is Finish {
            let i = choose|i: int| 0 <= i < events.len() && #[trigger] actions[i] is Finish;
            if i < last {
                assert(before[i] is Finish);
            }
        }
        assert forall|i: int, j: int|
            0 <= i < j < events.len() && #[trigger] actions[i] is Finish implies #[trigger] actions[j] is Carry by {
            assert(before[i] is Finish);
            if j < last {
                assert(before[j] is Carry);
            }
        }
    }
}

/// Whether an action concerns pads that are yet to come.
pub open spec fn concerns_pads<E>(action: SourceActionView<E>) -> bool {
    action is RequestPad || action is StartPump || action is AnnounceNoMorePads
}

/// Whether a session that waits for this is past its pads.
pub open spec fn is_past_pads(stage: SourceStageView) -> bool {
    stage is Announcement || stage is Pumps || stage is Finished
}

/// Once the session has announced that there are no more pads, it asks for none, whatever it is
/// told; and it makes the announcement only once.
pub proof fn law_session_announces_last_pad<E>(
    stage: SourceStageView,
    events: Seq<SourceEventView<E>>,
)
    ensures
        forall|i: int, j: int|
            0 <= i < j < events.len() && #[trigger] source_actions(
                stage,
                events,
            )[i] is AnnounceNoMorePads ==> !concerns_pads(
                #[trigger] source_actions(stage, events)[j],
            ),
{
    lemma_source_past_pads(stage, events);
}

proof fn lemma_source_past_pads<E>(stage: SourceStageView, events: Seq<SourceEventView<E>>)
    ensures
        forall|i: int|
            0 <= i < events.len() && #[trigger] source_actions(
                stage,
                events,
            )[i] is AnnounceNoMorePads ==> is_past_pads(source_after(stage, events)),
        forall|i: int, j: int|
            0 <= i < j < events.len() && #[trigger] source_actions(
                stage,
                events,
            )[i] is AnnounceNoMorePads ==> !concerns_pads(
                #[trigger] source_actions(stage, events)[j],
            ),
    decreases events.len(),
{
    lemma_source_action_count(stage, events);
    if events.len() > 0 {
        let earlier = events.drop_last();
        lemma_source_past_pads(stage, earlier);
        lemma_source_action_count(stage, earlier);
        let before = source_actions(stage, earlier);
        let actions = source_actions(stage, events);
        let last = events.len() - 1;
        assert(forall|i: int| 0 <= i < last ==> actions[i] == before[i]);
        assert forall|i: int| 0 <= i < events.len() && #[trigger] actions[i] is AnnounceNoMorePads
            implies is_past_pads(source_after(stage, events)) by {
            if i < last {
                assert(before[i] is AnnounceNoMorePads);
            }
        }
        assert forall|i: int, j: int|
            0 <= i < j < events.len() && #[trigger] actions[i] is AnnounceNoMorePads implies !concerns_pads(
            #[trigger] actions[j],
        ) by {
            assert(before[i] is AnnounceNoMorePads);
            if j < last {
                assert(!concerns_pads(before[j]));
            }
        }
    }
}

/// A session sets up a client that verifies certificates unless the settings say not to, connects to
/// the URL, opens its session, looks for the broadcast of the name, and reads the catalog. If one of
/// these fails it ends there, for that reason.
pub proof fn law_session_sets_up_or_says_why<E>(settings: ResolvedSettings, error: E)
    ensures
        ({
            let done = SourceEventView::<E>::Done;
            let failed = SourceEventView::Failed(error);
            let client = source_start::<E>(settings);
            let connection = source_next(client.0, done);
            let handshake = source_next(connection.0, done);
            let broadcast = source_next(handshake.0, done);
            let catalog = source_next(broadcast.0, done);
            let transport = SourceActionView::Finish(Err(SessionErrorView::Transport(error)));
            let not_found = SourceActionView::<E>::Finish(
                Err(SessionErrorView::BroadcastNotFound(settings.broadcast@)),
            );
            let no_catalog = SourceActionView::<E>::Finish(Err(SessionErrorView::CatalogMissing));
            &&& client.1 == SourceActionView::<E>::InitClient {
                disable_verify: settings.tls_disable_verify,
            }
            &&& connection.1 == SourceActionView::<E>::Connect(settings.url)
            &&& handshake.1 == SourceActionView::<E>::Handshake
            &&& broadcast.1 == SourceActionView::<E>::ConsumeBroadcast(settings.broadcast@)
            &&& catalog.1 == SourceActionView::<E>::ReadCatalog
            &&& source_next(client.0, failed) == (SourceStageView::Finished, transport)
            &&& source_next(connection.0, failed) == (SourceStageView::Finished, transport)
            &&& source_next(handshake.0, failed) == (SourceStageView::Finished, transport)
            &&& source_next(catalog.0, failed) == (SourceStageView::Finished, transport)
            &&& source_next(broadcast.0, SourceEventView::<E>::BroadcastMissing) == (
                SourceStageView::Finished,
                not_found,
            )
            &&& source_next(catalog.0, SourceEventView::<E>::Catalog(None)) == (
                SourceStageView::Finished,
                no_catalog,
            )
        }),
{
}

/// A track that has its turn gets a pad with the caps for what the catalog says of it, and then a
/// pump that may lag by a second; and then it is the next one's turn. It ends the session if no caps
/// are known for it, or if its pad is refused, and then for the reason of the refusal.
pub proof fn law_track_gets_a_pad_and_then_a_pump<E>(
    tracks: Seq<PlannedTrackView>,
    index: int,
    reason: SessionErrorView<E>,
)
    requires
        0 <= index < tracks.len(),
    ensures
        ({
            let done = SourceEventView::<E>::Done;
            let turn = turn_of::<E>(tracks, index);
            let pad = source_next(turn.0, done);
            match track_caps_of(tracks[index].config) {
                Ok(caps) => {
                    &&& turn.1 == SourceActionView::<E>::RequestPad {
                        descriptor: tracks[index].descriptor,
                        caps,
                    }
                    &&& pad.1 == SourceActionView::<E>::StartPump {
                        descriptor: tracks[index].descriptor,
                        max_latency_secs: 1,
                    }
                    &&& source_next(turn.0, SourceEventView::PadRefused(reason)) == (
                        SourceStageView::Finished,
                        SourceActionView::Finish(Err(reason)),
                    )
                    &&& source_next(pad.0, done) == turn_of::<E>(tracks, index + 1)
                },
                Err(_) => turn == (
                    SourceStageView::Finished,
                    SourceActionView::<E>::Finish(Err(SessionErrorView::UnsupportedAudioCodec)),
                ),
            }
        }),
        source_next(SourceStageView::Catalog, SourceEventView::<E>::Catalog(Some(tracks)))
            == turn_of::<E>(tracks, 0),
{
}

/// After the last track it is announced that there are no more pads. Then each pump is awaited, one
/// after the other from the first on, and after the last one the session ends well.
pub proof fn law_session_waits_for_each_pump<E>(tracks: Seq<PlannedTrackView>, index: int)
    requires
        0 <= index < tracks.len(),
    ensures
        ({
            let count = tracks.len() as int;
            let done = SourceEventView::<E>::Done;
            let end = (SourceStageView::Finished, SourceActionView::<E>::Finish(Ok(())));
            let announced = turn_of::<E>(tracks, count);
            let waiting = pumps_turn_of::<E>(count, index);
            let nothing_announced = turn_of::<E>(seq![], 0);
            &&& announced.1 is AnnounceNoMorePads
            &&& source_next(announced.0, done).1 == SourceActionView::<E>::AwaitPump(0)
            &&& source_next(announced.0, done) == pumps_turn_of::<E>(count, 0)
            &&& waiting.1 == SourceActionView::<E>::AwaitPump(index)
            &&& source_next(waiting.0, done) == (if index + 1 < count {
                pumps_turn_of::<E>(count, index + 1)
            } else {
                end
            })
            &&& nothing_announced.1 is AnnounceNoMorePads
            &&& source_next(nothing_announced.0, done) == end
        }),
{
}

/// Whether a session that waits for this has asked for something that the event answers.
pub open spec fn source_awaits<E>(stage: SourceStageView, event: SourceEventView<E>) -> bool {
    match event {
        SourceEventView::Done => !(stage is Catalog) && !(stage is Finished),
        SourceEventView::Failed(_) => stage is Client || stage is Connection || stage is Handshake
            || stage is Catalog,
        SourceEventView::BroadcastMissing => stage is Broadcast,
        SourceEventView::Catalog(_) => stage is Catalog,
        SourceEventView::PadRefused(_) => stage is Pad,
    }
}

/// An event that answers nothing changes nothing.
pub proof fn law_session_ignores_what_it_does_not_await<E>(
    stage: SourceStageView,
    event: SourceEventView<E>,
)
    ensures
        !source_awaits(stage, event) ==> source_next(stage, event) == (
            stage,
            SourceActionView::<E>::Carry,
        ),
        source_awaits(stage, event) ==> !(source_next(stage, event).1 is Carry),
{
}

/// The values of errors, events and actions have what these hold.
pub proof fn law_session_values_have_every_part<E>(
    error: SessionError<E>,
    event: SourceEvent<E>,
    action: SourceAction<E>,
    ending: Result<(), SessionError<E>>,
)
    ensures
        match error {
            SessionError::Transport(reason) => error@ == SessionErrorView::Transport(reason),
            SessionError::BroadcastNotFound(name) => error@
                == SessionErrorView::<E>::BroadcastNotFound(name@),
            SessionError::CatalogMissing => error@ is CatalogMissing,
            SessionError::UnsupportedAudioCodec => error@ is UnsupportedAudioCodec,
            SessionError::ControlPlaneShutDown => error@ is ControlPlaneShutDown,
            SessionError::PadCreationCancelled => error@ is PadCreationCancelled,
        },
        match event {
            SourceEvent::Done => event@ is Done,
            SourceEvent::Failed(reason) => event@ == SourceEventView::Failed(reason),
            SourceEvent::BroadcastMissing => event@ is BroadcastMissing,
            SourceEvent::Catalog(Some(catalog)) => event@ == SourceEventView::<E>::Catalog(
                Some(catalog@),
            ),
            SourceEvent::Catalog(None) => event@ == SourceEventView::<E>::Catalog(None),
            SourceEvent::PadRefused(reason) => event@ == SourceEventView::PadRefused(reason@),
        },
        match action {
            SourceAction::InitClient { disable_verify } => action@
                == SourceActionView::<E>::InitClient { disable_verify },
            SourceAction::Connect(url) => action@ == SourceActionView::<E>::Connect(url),
            SourceAction::Handshake => action@ is Handshake,
            SourceAction::ConsumeBroadcast(name) => action@
                == SourceActionView::<E>::ConsumeBroadcast(name@),
            SourceAction::ReadCatalog => action@ is ReadCatalog,
            SourceAction::RequestPad { descriptor, caps } => action@
                == SourceActionView::<E>::RequestPad { descriptor: descriptor@, caps: caps@ },
            SourceAction::StartPump { descriptor, max_latency_secs } => action@
                == SourceActionView::<E>::StartPump { descriptor: descriptor@, max_latency_secs },
            SourceAction::AnnounceNoMorePads => action@ is AnnounceNoMorePads,
            SourceAction::AwaitPump(index) => action@ == SourceActionView::<E>::AwaitPump(
                index as int,
            ),
            SourceAction::Finish(result) => action@ == SourceActionView::<E>::Finish(
                ending_view(result),
            ),
            SourceAction::Carry => action@ is Carry,
        },
        match ending {
            Ok(_) => ending_view(ending) is Ok,
            Err(reason) => ending_view(ending) == Err::<(), SessionErrorView<E>>(reason@),
        },
{
}

} // verus!
