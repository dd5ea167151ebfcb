use moq_gst::caps::Caps;
use moq_gst::catalog::{AudioRendition, Catalog, VideoRendition};
use moq_gst::element::{
    PadDirection, PadPresence, StateChange, StateChangeError, StateChangeEvent, StateChangeStep,
    StateChangeSuccess,
};
use moq_gst::pad_setup::{CreatePadError, PadSetup, PadSetupAction, PadSetupEvent};
use moq_gst::pads::PadTable;
use moq_gst::properties::PropertyValue;
use moq_gst::pump::PadMessage;
use moq_gst::settings::{ResolvedSettings, SettingsError};
use moq_gst::source::{
    session_error_text, session_report, ControlAction, ControlMessage, MoqSrc,
};
use moq_gst::source_session::{
    request_pad, SessionError, SourceAction, SourceEvent, SourceSession,
};
use moq_gst::track::{AudioCodec, AudioConfig, TrackDescriptor, TrackKind, VideoConfig};

type Source = MoqSrc<u32, &'static str, &'static str, &'static str>;
type Event = SourceEvent<&'static str>;
type Action = SourceAction<&'static str>;
type Message = ControlMessage<u32, &'static str>;

fn resolved() -> ResolvedSettings {
    ResolvedSettings {
        url: url::Url::parse("https://relay.example.com/anon").unwrap(),
        broadcast: "bbb".to_string(),
        tls_disable_verify: true,
    }
}

fn video(name: &str) -> VideoRendition {
    VideoRendition { name: name.to_string(), config: VideoConfig { description: None } }
}

fn audio(name: &str, codec: AudioCodec) -> AudioRendition {
    let config =
        AudioConfig { codec, sample_rate: 44100, channel_count: 1, description: None };
    AudioRendition { name: name.to_string(), config }
}

fn descriptor(kind: TrackKind, name: &str) -> TrackDescriptor {
    TrackDescriptor { kind, name: name.to_string() }
}

fn show(action: &Action) -> String {
    match action {
        SourceAction::InitClient { disable_verify } => format!("client {}", disable_verify),
        SourceAction::Connect(url) => format!("connect {}", url),
        SourceAction::Handshake => "handshake".to_string(),
        SourceAction::ConsumeBroadcast(name) => format!("consume {}", name),
        SourceAction::ReadCatalog => "catalog".to_string(),
        SourceAction::RequestPad { descriptor, caps } => {
            let media_type = match caps {
                Caps::Any => "any",
                Caps::Structure { media_type, .. } => media_type,
            };
            format!("pad {} {}", descriptor.pad_name(), media_type)
        }
        SourceAction::StartPump { descriptor, max_latency_secs } => {
            format!("pump {} {}", descriptor.pad_name(), max_latency_secs)
        }
        SourceAction::AnnounceNoMorePads => "no more pads".to_string(),
        SourceAction::AwaitPump(index) => format!("await {}", index),
        SourceAction::Finish(Ok(())) => "finish".to_string(),
        SourceAction::Finish(Err(error)) => match error {
            SessionError::Transport(reason) => format!("transport: {}", reason),
            _ => error.message().unwrap(),
        },
        SourceAction::Carry => "carry".to_string(),
    }
}

fn run(events: Vec<Event>) -> (SourceSession, Vec<String>) {
    let (mut session, action) = SourceSession::start::<&'static str>(resolved());
    let mut actions = vec![show(&action)];
    for event in events {
        let (next, action) = session.step(event);
        actions.push(show(&action));
        session = next;
    }
    (session, actions)
}

fn setup(mut rest: Vec<Event>) -> Vec<Event> {
    let mut events = vec![Event::Done, Event::Done, Event::Done, Event::Done];
    events.append(&mut rest);
    events
}

const SETUP: [&str; 5] = [
    "client true",
    "connect https://relay.example.com/anon",
    "handshake",
    "consume bbb",
    "catalog",
];

#[test]
fn session_serves_every_track() {
    let catalog = Catalog {
        video: Some(vec![video("0"), video("1")]),
        audio: Some(vec![audio("0", AudioCodec::Opus)]),
    };
    let mut events = setup(vec![Event::Catalog(Some(catalog))]);
    for _ in 0..10 {
        events.push(Event::Done);
    }
    let (session, actions) = run(events);
    assert_eq!(actions[..5], SETUP);
    assert_eq!(
        actions[5..],
        [
            "pad video_0 video/x-h264",
            "pump video_0 1",
            "pad video_1 video/x-h264",
            "pump video_1 1",
            "pad audio_0 audio/x-opus",
            "pump audio_0 1",
            "no more pads",
            "await 0",
            "await 1",
            "await 2",
            "finish",
        ]
    );
    assert!(session.is_finished());
}

#[test]
fn session_without_tracks_announces_at_once() {
    let catalog = Catalog { video: None, audio: None };
    let events = setup(vec![Event::Catalog(Some(catalog)), Event::Done]);
    let (session, actions) = run(events);
    assert_eq!(actions[5..], ["no more pads", "finish"]);
    assert!(session.is_finished());
}

#[test]
fn unsupported_codec_ends_the_session_after_earlier_tracks() {
    let catalog = Catalog {
        video: Some(vec![video("0")]),
        audio: Some(vec![audio("0", AudioCodec::Unknown), audio("1", AudioCodec::Aac)]),
    };
    let events = setup(vec![Event::Catalog(Some(catalog)), Event::Done, Event::Done]);
    let (session, actions) = run(events);
    assert_eq!(
        actions[5..],
        ["pad video_0 video/x-h264", "pump video_0 1", "unsupported audio codec"]
    );
    assert!(session.is_finished());
}

#[test]
fn transport_failures_end_the_session() {
    for before in 0..3 {
        let mut events: Vec<Event> = Vec::new();
        for _ in 0..before {
            events.push(Event::Done);
        }
        events.push(Event::Failed("refused"));
        events.push(Event::Done);
        let (session, actions) = run(events);
        assert_eq!(actions[before + 1], "transport: refused");
        assert_eq!(actions[before + 2], "carry");
        assert!(session.is_finished());
    }
    let (session, actions) = run(setup(vec![Event::Failed("reset")]));
    assert_eq!(actions[5], "transport: reset");
    assert!(session.is_finished());
}

#[test]
fn missing_broadcast_and_catalog_end_the_session() {
    let (session, actions) =
        run(vec![Event::Done, Event::Done, Event::Done, Event::BroadcastMissing]);
    assert_eq!(actions[4], "Broadcast 'bbb' not found");
    assert!(session.is_finished());
    let (session, actions) = run(setup(vec![Event::Catalog(None)]));
    assert_eq!(actions[5], "catalog missing");
    assert!(session.is_finished());
}

#[test]
fn refused_pads_end_the_session() {
    for (sent, message) in
        vec![(false, "control plane shut down"), (true, "pad creation cancelled")]
    {
        let refusal = request_pad::<u32, &'static str>(sent, None).unwrap_err();
        let catalog = Catalog { video: Some(vec![video("0")]), audio: None };
        let events = setup(vec![Event::Catalog(Some(catalog)), Event::PadRefused(refusal)]);
        let (session, actions) = run(events);
        assert_eq!(actions[6], message);
        assert!(session.is_finished());
    }
}

#[test]
fn granted_pad_is_handed_on() {
    let granted = request_pad::<u32, &'static str>(true, Some(5));
    assert!(matches!(granted, Ok(5)));
    let lost = request_pad::<u32, &'static str>(false, Some(5));
    assert!(matches!(lost, Err(SessionError::ControlPlaneShutDown)));
}

#[test]
fn unexpected_event_changes_nothing() {
    let (session, actions) = run(vec![Event::Catalog(None), Event::Done]);
    assert_eq!(actions[1], "carry");
    assert_eq!(actions[2], "connect https://relay.example.com/anon");
    assert!(!session.is_finished());
}

#[test]
fn only_failures_are_reported() {
    assert!(session_report::<u32, &'static str>(Ok(())).is_none());
    let report = session_report::<u32, &'static str>(Err(SessionError::CatalogMissing));
    assert!(matches!(
        report,
        Some(ControlMessage::ReportError(SessionError::CatalogMissing))
    ));
    let transport: SessionError<&'static str> = SessionError::Transport("reset");
    assert!(transport.message().is_none());
}

#[test]
fn source_session_needs_settings() {
    let mut element = Source::new();
    assert!(matches!(element.start_session(), Err(SettingsError::MissingUrl)));
    element.set_property("url", PropertyValue::Text(Some("https://Example.com".to_string())));
    assert!(matches!(element.start_session(), Err(SettingsError::MissingBroadcast)));
    element.set_property("broadcast", PropertyValue::Text(Some("b".to_string())));
    let settings = element.start_session().unwrap();
    assert_eq!(settings.url.as_str(), "https://example.com/");
    assert_eq!(settings.broadcast, "b");
    assert!(!settings.tls_disable_verify);
}

#[test]
fn stopping_gives_up_what_was_started() {
    let mut element = Source::new();
    element.session_started("task", "sender", "session");
    element.register_pad(&descriptor(TrackKind::Video, "0"), 10);
    element.register_pad(&descriptor(TrackKind::Audio, "0"), 20);
    let stopped = element.stop_session();
    assert_eq!(stopped.session, Some("session"));
    assert_eq!(stopped.control_task, Some("task"));
    assert!(stopped.pads.iter().all(|pad| matches!(pad.message, PadMessage::Drop)));
    let mut pads: Vec<(String, u32)> =
        stopped.pads.into_iter().map(|entry| (entry.name, entry.handle)).collect();
    pads.sort();
    assert_eq!(pads, vec![("audio_0".to_string(), 20), ("video_0".to_string(), 10)]);
    let again = element.stop_session();
    assert_eq!(again.session, None);
    assert_eq!(again.control_task, None);
    assert!(again.pads.is_empty());
}

#[test]
fn control_messages_are_acted_upon() {
    let mut element = Source::new();
    element.register_pad(&descriptor(TrackKind::Video, "0"), 10);
    element.register_pad(&descriptor(TrackKind::Video, "1"), 11);
    let drop_pad = Message::DropPad { pad_name: "video_0".to_string() };
    assert!(matches!(
        element.handle_control_message(drop_pad),
        ControlAction::DropPad { handle: 10, message: PadMessage::Drop }
    ));
    let drop_pad = Message::DropPad { pad_name: "video_0".to_string() };
    assert!(matches!(element.handle_control_message(drop_pad), ControlAction::Nothing));
    assert!(matches!(
        element.handle_control_message(Message::NoMorePads),
        ControlAction::SignalNoMorePads
    ));
    assert!(matches!(
        element.handle_control_message(Message::ReportError(SessionError::CatalogMissing)),
        ControlAction::PostError(SessionError::CatalogMissing)
    ));
    assert_eq!(session_error_text(), "session error");
    let create = Message::CreatePad {
        descriptor: descriptor(TrackKind::Audio, "2"),
        caps: Caps::Any,
        reply: 9,
    };
    match element.handle_control_message(create) {
        ControlAction::CreatePad { descriptor, caps, reply } => {
            assert_eq!(descriptor.pad_name(), "audio_2");
            assert!(matches!(caps, Caps::Any));
            assert_eq!(reply, 9);
        }
        _ => panic!("not a new pad"),
    }
    assert_eq!(element.stop_session().pads.len(), 1);
}

#[test]
fn pad_of_the_same_name_is_replaced() {
    let mut table: PadTable<u32> = PadTable::new();
    assert_eq!(table.insert("video_0".to_string(), 1), None);
    assert_eq!(table.insert("video_1".to_string(), 2), None);
    assert_eq!(table.insert("video_0".to_string(), 3), Some(1));
    assert_eq!(table.remove(&"video_2".to_string()), None);
    assert_eq!(table.remove(&"video_0".to_string()), Some(3));
    let left = table.drain();
    assert_eq!(left.len(), 1);
    assert_eq!(left[0].name, "video_1");
    assert_eq!(left[0].handle, 2);
    assert!(table.drain().is_empty());
}

fn show_setup(action: &PadSetupAction<&'static str>) -> String {
    match action {
        PadSetupAction::FindTemplate(name) => format!("template {}", name),
        PadSetupAction::Build(name) => format!("build {}", name),
        PadSetupAction::Activate => "activate".to_string(),
        PadSetupAction::PushStreamStart(name) => format!("stream {}", name),
        PadSetupAction::PushCaps(_) => "caps".to_string(),
        PadSetupAction::PushSegment => "segment".to_string(),
        PadSetupAction::AddPad => "add".to_string(),
        PadSetupAction::Serve(descriptor) => format!("serve {}", descriptor.pad_name()),
        PadSetupAction::Fail(CreatePadError::Pad(reason)) => format!("fail {}", reason),
        PadSetupAction::Fail(error) => error.message().unwrap(),
        PadSetupAction::Carry => "carry".to_string(),
    }
}

fn make_pad(events: Vec<PadSetupEvent<&'static str>>) -> Vec<String> {
    let (mut setup, action) =
        PadSetup::start::<&'static str>(descriptor(TrackKind::Audio, "en"), Caps::Any);
    let mut actions = vec![show_setup(&action)];
    for event in events {
        let (next, action) = setup.step(event);
        actions.push(show_setup(&action));
        setup = next;
    }
    actions
}

#[test]
fn pad_is_prepared_and_then_added() {
    let mut events = Vec::new();
    for _ in 0..8 {
        events.push(PadSetupEvent::Done);
    }
    assert_eq!(
        make_pad(events),
        [
            "template audio_%u",
            "build audio_en",
            "activate",
            "stream en",
            "caps",
            "segment",
            "add",
            "serve audio_en",
            "carry",
        ]
    );
}

#[test]
fn pad_is_given_up_when_a_step_fails() {
    assert_eq!(
        make_pad(vec![PadSetupEvent::TemplateMissing, PadSetupEvent::Done])[1..],
        ["missing pad template", "carry"]
    );
    let events =
        vec![PadSetupEvent::Done, PadSetupEvent::Done, PadSetupEvent::Failed("inactive")];
    assert_eq!(make_pad(events)[3], "fail inactive");
    let mut events = Vec::new();
    for _ in 0..6 {
        events.push(PadSetupEvent::Done);
    }
    events.push(PadSetupEvent::Failed("duplicate"));
    events.push(PadSetupEvent::Done);
    assert_eq!(make_pad(events)[7..], ["fail duplicate", "carry"]);
}

#[test]
fn source_presents_itself() {
    let metadata = Source::metadata();
    assert_eq!(metadata.long_name, "MoQ Src (ref)");
    assert_eq!(metadata.classification, "Source/Network/MoQ");
    assert_eq!(metadata.description, "Receives media over the network via MoQ");
    let templates = Source::pad_templates();
    assert_eq!(templates.len(), 2);
    assert_eq!(templates[0].name, TrackKind::Video.template_name());
    assert_eq!(templates[1].name, TrackKind::Audio.template_name());
    for template in templates {
        assert_eq!(template.direction, PadDirection::Src);
        assert_eq!(template.presence, PadPresence::Sometimes);
        assert!(matches!(template.caps, Caps::Any));
    }
}

#[test]
fn pausing_starts_the_session_without_preroll() {
    let change = StateChange::ReadyToPaused;
    assert_eq!(change.begin(), StateChangeStep::StartSession);
    assert_eq!(
        change.go_on(StateChangeEvent::SessionStarted(false)),
        StateChangeStep::Return(Err(StateChangeError))
    );
    assert_eq!(
        change.go_on(StateChangeEvent::SessionStarted(true)),
        StateChangeStep::CallParent
    );
    for (parent, returned) in vec![
        (Ok(StateChangeSuccess::Success), Ok(StateChangeSuccess::NoPreroll)),
        (Ok(StateChangeSuccess::Async), Ok(StateChangeSuccess::Async)),
        (Ok(StateChangeSuccess::NoPreroll), Ok(StateChangeSuccess::NoPreroll)),
        (Err(StateChangeError), Err(StateChangeError)),
    ] {
        assert_eq!(
            change.go_on(StateChangeEvent::Parent(parent)),
            StateChangeStep::Return(returned)
        );
    }
}

#[test]
fn other_changes_are_left_to_the_parent() {
    assert_eq!(StateChange::PausedToReady.begin(), StateChangeStep::StopSession);
    assert_eq!(
        StateChange::PausedToReady.go_on(StateChangeEvent::SessionStopped),
        StateChangeStep::CallParent
    );
    assert_eq!(StateChange::Other.begin(), StateChangeStep::CallParent);
    for change in vec![StateChange::PausedToReady, StateChange::Other] {
        assert_eq!(
            change.go_on(StateChangeEvent::Parent(Ok(StateChangeSuccess::Success))),
            StateChangeStep::Return(Ok(StateChangeSuccess::Success))
        );
    }
}
