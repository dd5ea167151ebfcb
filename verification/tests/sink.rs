use bytes::Buf;
use moq_gst::caps::{Caps, FieldValue};
use moq_gst::element::{PadDirection, PadPresence};
use moq_gst::settings::{ResolvedSettings, SettingsError};
use moq_gst::sink::{render_result, FlowError, MoqSink};
use moq_gst::sink_session::{
    BufferPayload, SinkAction, SinkEvent, SinkFailure, SinkSession, CHANNEL_CAPACITY,
};

type Sink = MoqSink<&'static str, &'static str>;
type Event = SinkEvent<&'static str>;
type Action = SinkAction<&'static str>;

fn start() -> (SinkSession, Action) {
    SinkSession::start(ResolvedSettings {
        url: url::Url::parse("https://relay.example.com").unwrap(),
        broadcast: "bbb".to_string(),
        tls_disable_verify: false,
    })
}

fn chunk(data: &[u8]) -> Event {
    SinkEvent::Chunk(BufferPayload { data: bytes::Bytes::copy_from_slice(data) })
}

fn running() -> SinkSession {
    let (mut session, _) = start();
    for _ in 0..4 {
        let (next, _) = session.step(Event::Done);
        session = next;
    }
    session
}

/// Feeds a piece of the stream, has the importer take some bytes, and returns them.
fn feed(session: SinkSession, data: &[u8], taken: usize) -> (SinkSession, Vec<u8>) {
    let (mut session, action) = session.step(chunk(data));
    assert!(matches!(action, Action::Decode));
    let buffer = session.buffer_mut();
    let bytes = buffer[..taken].to_vec();
    buffer.advance(taken);
    let (session, action) = session.step(Event::Done);
    assert!(matches!(action, Action::Receive(None)));
    (session, bytes)
}

#[test]
fn sink_session_publishes_before_the_handshake() {
    let (session, action) = start();
    assert!(matches!(action, Action::InitClient { disable_verify: false }));
    let (session, action) = session.step(Event::Done);
    match action {
        Action::Connect(url) => assert_eq!(url.as_str(), "https://relay.example.com/"),
        _ => panic!("not a connection"),
    }
    let (session, action) = session.step(Event::Done);
    match action {
        Action::Publish(name) => assert_eq!(name, "bbb"),
        _ => panic!("not a publication"),
    }
    let (session, action) = session.step(Event::Done);
    assert!(matches!(action, Action::Handshake));
    let (session, action) = session.step(Event::Done);
    assert!(matches!(action, Action::Receive(None)));
    assert!(!session.is_stopped());
}

#[test]
fn stream_is_kept_across_partial_decodes() {
    let (session, first) = feed(running(), &[1, 2, 3], 2);
    let (session, second) = feed(session, &[4, 5], 0);
    let (mut session, third) = feed(session, &[6], 3);
    assert_eq!(first, vec![1, 2]);
    assert_eq!(second, Vec::<u8>::new());
    assert_eq!(third, vec![3, 4, 5]);
    assert_eq!(session.buffer_mut()[..], [6]);
}

#[test]
fn failed_decode_empties_the_buffer() {
    let (session, _) = running().step(chunk(&[1, 2, 3]));
    let (mut session, action) = session.step(Event::Failed("bad box"));
    assert!(matches!(action, Action::Receive(Some("bad box"))));
    assert!(session.buffer_mut().is_empty());
    let (mut session, action) = session.step(chunk(&[9]));
    assert!(matches!(action, Action::Decode));
    assert_eq!(session.buffer_mut()[..], [9]);
}

#[test]
fn sink_session_stops_when_told_to() {
    for event in vec![Event::Shutdown, Event::Closed] {
        let (session, action) = running().step(event);
        assert!(matches!(action, Action::Stop(None)));
        assert!(session.is_stopped());
        let (session, action) = session.step(chunk(&[1]));
        assert!(matches!(action, Action::Carry));
        assert!(session.is_stopped());
    }
}

#[test]
fn sink_session_stops_at_a_failure() {
    let (session, action) = start().0.step(Event::Failed("a"));
    assert!(matches!(action, Action::Stop(Some(SinkFailure::InitClient("a")))));
    assert!(session.is_stopped());
    let (session, _) = start().0.step(Event::Done);
    let (session, action) = session.step(Event::Failed("b"));
    assert!(matches!(action, Action::Stop(Some(SinkFailure::Connect("b")))));
    assert!(session.is_stopped());
    let (session, _) = start().0.step(Event::Done);
    let (session, _) = session.step(Event::Done);
    let (session, _) = session.step(Event::Done);
    let (session, action) = session.step(Event::Failed("c"));
    assert!(matches!(action, Action::Stop(Some(SinkFailure::Handshake("c")))));
    assert!(session.is_stopped());
}

#[test]
fn sink_session_needs_settings() {
    let element = Sink::new();
    assert!(matches!(element.start_session(), Err(SettingsError::MissingUrl)));
}

#[test]
fn buffers_are_taken_during_the_session() {
    let mut element = Sink::new();
    let data: [u8; 3] = [1, 2, 3];
    assert!(matches!(element.render(Some(&data)), Err(FlowError::Flushing)));
    element.session_started("writer", "session");
    let (writer, payload) = element.render(Some(&data)).unwrap_or_else(|_| panic!("refused"));
    assert_eq!(*writer, "writer");
    assert_eq!(payload.data[..], data);
    assert!(matches!(element.render(None), Err(FlowError::Error)));
    assert_eq!(element.stop_session(), Some("session"));
    assert!(matches!(element.render(Some(&data)), Err(FlowError::Flushing)));
    assert!(matches!(element.render(None), Err(FlowError::Error)));
    assert_eq!(element.stop_session(), None);
}

#[test]
fn buffer_that_cannot_be_sent_is_flushed() {
    assert_eq!(render_result(true), Ok(()));
    assert_eq!(render_result(false), Err(FlowError::Flushing));
    assert_eq!(CHANNEL_CAPACITY, 32);
}

#[test]
fn sink_presents_itself() {
    let metadata = Sink::metadata();
    assert_eq!(metadata.long_name, "MoQ Sink (ref)");
    assert_eq!(metadata.classification, "Sink/Network/MoQ");
    assert_eq!(metadata.description, "Publishes CMAF fragments over MoQ");
    let templates = Sink::pad_templates();
    assert_eq!(templates.len(), 1);
    assert_eq!(templates[0].name, "sink");
    assert_eq!(templates[0].direction, PadDirection::Sink);
    assert_eq!(templates[0].presence, PadPresence::Always);
    match &templates[0].caps {
        Caps::Any => panic!("no caps"),
        Caps::Structure { media_type, fields } => {
            assert_eq!(*media_type, "video/quicktime");
            assert_eq!(fields.len(), 1);
            assert_eq!(fields[0].name, "variant");
            assert!(matches!(fields[0].value, FieldValue::Text("iso-fragmented")));
        }
    }
}

#[test]
fn buffer_is_bounded() {
    assert_eq!(SinkSession::buffer_limit(), isize::MAX as usize / 4);
}
