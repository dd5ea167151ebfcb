//! The session of a sink element: from the connection to the last fragment.

use vstd::prelude::*;

use crate::outside::{buffer_limit, buffer_of, bytes_of};
use crate::settings::ResolvedSettings;

verus! {

/// How many buffers the queue in front of the session holds.
pub const CHANNEL_CAPACITY: usize = 32;

/// A piece of the stream of fragments.
pub struct BufferPayload {
    pub data: bytes::Bytes,
}

impl View for BufferPayload {
    type V = Seq<u8>;

    open spec fn view(&self) -> Seq<u8> {
        bytes_of(self.data)
    }
}

/// What came of the action that the session last asked for. `E` is what the transport and the
/// importer report.
pub enum SinkEvent<E> {
    /// It was done.
    Done,
    /// It failed.
    Failed(E),
    /// A piece of the stream came.
    Chunk(BufferPayload),
    /// The session is to shut down.
    Shutdown,
    /// No more pieces will come.
    Closed,
}

/// The value of a `SinkEvent`.
pub enum SinkEventView<E> {
    Done,
    Failed(E),
    Chunk(Seq<u8>),
    Shutdown,
    Closed,
}

impl<E> View for SinkEvent<E> {
    type V = SinkEventView<E>;

    open spec fn view(&self) -> SinkEventView<E> {
        match *self {
            SinkEvent::Done => SinkEventView::Done,
            SinkEvent::Failed(error) => SinkEventView::Failed(error),
            SinkEvent::Chunk(payload) => SinkEventView::Chunk(payload@),
            SinkEvent::Shutdown => SinkEventView::Shutdown,
            SinkEvent::Closed => SinkEventView::Closed,
        }
    }
}

/// Why a session has ended, if it has not been told to.
#[derive(Debug)]
pub enum SinkFailure<E> {
    /// The client could not be set up.
    InitClient(E),
    /// The connection could not be made.
    Connect(E),
    /// The session could not be opened.
    Handshake(E),
}

/// What the session wants done next.
#[derive(Debug)]
pub enum SinkAction<E> {
    /// Set up a client.
    InitClient { disable_verify: bool },
    /// Connect to the URL.
    Connect(url::Url),
    /// Publish a broadcast under that name.
    Publish(String),
    /// Open a session on the connection, in order to publish.
    Handshake,
    /// Wait for the next piece of the stream, or for the end of the session. If a piece could
    /// not be decoded, that is to be reported first.
    Receive(Option<E>),
    /// Have the importer take what it can from the front of the buffer.
    Decode,
    /// The session is over.
    Stop(Option<SinkFailure<E>>),
    /// The event answers nothing that was asked: carry on with what was asked last.
    Carry,
}

/// The value of a `SinkAction`.
pub enum SinkActionView<E> {
    InitClient { disable_verify: bool },
    Connect(url::Url),
    Publish(Seq<char>),
    Handshake,
    Receive(Option<E>),
    Decode,
    Stop(Option<SinkFailure<E>>),
    Carry,
}

impl<E> View for SinkAction<E> {
    type V = SinkActionView<E>;

    open spec fn view(&self) -> SinkActionView<E> {
        match *self {
            SinkAction::InitClient { disable_verify } => SinkActionView::InitClient {
                disable_verify,
            },
            SinkAction::Connect(url) => SinkActionView::Connect(url),
            SinkAction::Publish(name) => SinkActionView::Publish(name@),
            SinkAction::Handshake => SinkActionView::Handshake,
            SinkAction::Receive(error) => SinkActionView::Receive(error),
            SinkAction::Decode => SinkActionView::Decode,
            SinkAction::Stop(failure) => SinkActionView::Stop(failure),
            SinkAction::Carry => SinkActionView::Carry,
        }
    }
}

/// What a session waits for.
enum SinkStage {
    Client { url: url::Url, broadcast: String },
    Connection { broadcast: String },
    Publication,
    Handshake,
    Chunk,
    Decoder,
    Stopped,
}

/// What a session waits for, and what it needs to know for the rest of its way.
pub enum SinkStageView {
    /// The client is being set up.
    Client { url: url::Url, broadcast: Seq<char> },
    /// The connection is being made.
    Connection { broadcast: Seq<char> },
    /// The broadcast is being published.
    Publication,
    /// The session is being opened.
    Handshake,
    /// The next piece of the stream is awaited.
    Chunk,
    /// The importer is at work on the buffer.
    Decoder,
    /// The session is over.
    Stopped,
}

/// The value of a `SinkSession`.
pub struct SinkView {
    pub stage: SinkStageView,
    /// What has come of the stream and has not been taken by the importer.
    pub buffer: Seq<u8>,
}

impl SinkStage {
    spec fn view(self) -> SinkStageView {
        match self {
            SinkStage::Client { url, broadcast } => SinkStageView::Client {
                url,
                broadcast: broadcast@,
            },
            SinkStage::Connection { broadcast } => SinkStageView::Connection {
                broadcast: broadcast@,
            },
            SinkStage::Publication => SinkStageView::Publication,
            SinkStage::Handshake => SinkStageView::Handshake,
            SinkStage::Chunk => SinkStageView::Chunk,
            SinkStage::Decoder => SinkStageView::Decoder,
            SinkStage::Stopped => SinkStageView::Stopped,
        }
    }
}

/// The session of a sink element.
pub struct SinkSession {
    stage: SinkStage,
    buffer: bytes::BytesMut,
}

impl View for SinkSession {
    type V = SinkView;

    closed spec fn view(&self) -> SinkView {
        SinkView { stage: self.stage.view(), buffer: buffer_of(self.buffer) }
    }
}

/// The start of a session.
pub open spec fn sink_start<E>(settings: ResolvedSettings) -> (SinkView, SinkActionView<E>) {
    (
        SinkView {
            stage: SinkStageView::Client { url: settings.url, broadcast: settings.broadcast@ },
            buffer: seq![],
        },
        SinkActionView::InitClient { disable_verify: settings.tls_disable_verify },
    )
}

impl SinkView {
    /// The session, waiting for something else.
    pub open spec fn at(self, stage: SinkStageView) -> SinkView {
        SinkView { stage, ..self }
    }

    /// Whether the event can be handled: what came of the stream has to fit in the buffer.
    pub open spec fn accepts<E>(self, event: SinkEventView<E>) -> bool {
        match (self.stage, event) {
            (SinkStageView::Chunk, SinkEventView::Chunk(data)) => self.buffer.len() + data.len()
                <= buffer_limit(),
            _ => true,
        }
    }
}

/// What a session does on an event.
pub open spec fn sink_next<E>(session: SinkView, event: SinkEventView<E>) -> (
    SinkView,
    SinkActionView<E>,
) {
    let stopped = session.at(SinkStageView::Stopped);
    match (session.stage, event) {
        (SinkStageView::Client { url, broadcast }, SinkEventView::Done) => (
            session.at(SinkStageView::Connection { broadcast }),
            SinkActionView::Connect(url),
        ),
        (SinkStageView::Client { .. }, SinkEventView::Failed(error)) => (
            stopped,
            SinkActionView::Stop(Some(SinkFailure::InitClient(error))),
        ),
        (SinkStageView::Connection { broadcast }, SinkEventView::Done) => (
            session.at(SinkStageView::Publication),
            SinkActionView::Publish(broadcast),
        ),
        (SinkStageView::Connection { .. }, SinkEventView::Failed(error)) => (
            stopped,
            SinkActionView::Stop(Some(SinkFailure::Connect(error))),
        ),
        (SinkStageView::Publication, SinkEventView::Done) => (
            session.at(SinkStageView::Handshake),
            SinkActionView::Handshake,
        ),
        (SinkStageView::Handshake, SinkEventView::Done) => (
            session.at(SinkStageView::Chunk),
            SinkActionView::Receive(None),
        ),
        (SinkStageView::Handshake, SinkEventView::Failed(error)) => (
            stopped,
            SinkActionView::Stop(Some(SinkFailure::Handshake(error))),
        ),
        (SinkStageView::Chunk, SinkEventView::Chunk(data)) => (
            SinkView { stage: SinkStageView::Decoder, buffer: session.buffer + data },
            SinkActionView::Decode,
        ),
        (SinkStageView::Chunk, SinkEventView::Shutdown | SinkEventView::Closed) => (
            stopped,
            SinkActionView::Stop(None),
        ),
        (SinkStageView::Decoder, SinkEventView::Done) => (
            session.at(SinkStageView::Chunk),
            SinkActionView::Receive(None),
        ),
        (SinkStageView::Decoder, SinkEventView::Failed(error)) => (
            SinkView { stage: SinkStageView::Chunk, buffer: seq![] },
            SinkActionView::Receive(Some(error)),
        ),
        _ => (session, SinkActionView::Carry),
    }
}

impl SinkSession {
    /// A session with these settings, and the first thing that it wants done.
    pub fn start<E>(settings: ResolvedSettings) -> (started: (SinkSession, SinkAction<E>))
        ensures
            (started.0@, started.1@) == sink_start::<E>(settings),
    {
        let disable_verify = settings.tls_disable_verify;
        let stage = SinkStage::Client { url: settings.url, broadcast: settings.broadcast };
        let buffer = bytes::BytesMut::new();
        (SinkSession { stage, buffer }, SinkAction::InitClient { disable_verify })
    }

    /// Whether the session is over.
    pub fn is_stopped(&self) -> (over: bool)
        ensures
            over == (self@.stage is Stopped),
    {
        match self.stage {
            SinkStage::Stopped => true,
            _ => false,
        }
    }

    /// What has come of the stream and has not been taken yet. The importer takes from it.
    pub fn buffer_mut(&mut self) -> (buffer: &mut bytes::BytesMut)
        ensures
            buffer_of(*buffer) == old(self)@.buffer,
            final(self)@ == (SinkView { buffer: buffer_of(*final(buffer)), ..old(self)@ }),
    {
        &mut self.buffer
    }

    /// The most bytes that the buffer may hold once a piece of the stream has come.
    pub fn buffer_limit() -> (limit: usize)
        ensures
            limit == buffer_limit(),
    {
        (isize::MAX / 4) as usize
    }

    /// Handles an event: the session from then on, and what it wants done next.
    pub fn step<E>(self, event: SinkEvent<E>) -> (next: (SinkSession, SinkAction<E>))
        requires
            self@.accepts(event@),
        ensures
            (next.0@, next.1@) == sink_next(self@, event@),
    {
        let mut buffer = self.buffer;
        match (self.stage, event) {
            (SinkStage::Client { url, broadcast }, SinkEvent::Done) => {
                let stage = SinkStage::Connection { broadcast };
                (SinkSession { stage, buffer }, SinkAction::Connect(url))
            },
            (SinkStage::Client { .. }, SinkEvent::Failed(error)) => {
                let failure = SinkFailure::InitClient(error);
                (SinkSession { stage: SinkStage::Stopped, buffer }, SinkAction::Stop(Some(failure)))
            },
            (SinkStage::Connection { broadcast }, SinkEvent::Done) => {
                let stage = SinkStage::Publication;
                (SinkSession { stage, buffer }, SinkAction::Publish(broadcast))
            },
            (SinkStage::Connection { .. }, SinkEvent::Failed(error)) => {
                let failure = SinkFailure::Connect(error);
                (SinkSession { stage: SinkStage::Stopped, buffer }, SinkAction::Stop(Some(failure)))
            },
            (SinkStage::Publication, SinkEvent::Done) => {
                (SinkSession { stage: SinkStage::Handshake, buffer }, SinkAction::Handshake)
            },
            (SinkStage::Handshake, SinkEvent::Done) => {
                (SinkSession { stage: SinkStage::Chunk, buffer }, SinkAction::Receive(None))
            },
            (SinkStage::Handshake, SinkEvent::Failed(error)) => {
                let failure = SinkFailure::Handshake(error);
                (SinkSession { stage: SinkStage::Stopped, buffer }, SinkAction::Stop(Some(failure)))
            },
            (SinkStage::Chunk, SinkEvent::Chunk(chunk)) => {
                buffer.extend_from_slice(&chunk.data);
                (SinkSession { stage: SinkStage::Decoder, buffer }, SinkAction::Decode)
            },
            (SinkStage::Chunk, SinkEvent::Shutdown | SinkEvent::Closed) => {
                (SinkSession { stage: SinkStage::Stopped, buffer }, SinkAction::Stop(None))
            },
            (SinkStage::Decoder, SinkEvent::Done) => {
                (SinkSession { stage: SinkStage::Chunk, buffer }, SinkAction::Receive(None))
            },
            (SinkStage::Decoder, SinkEvent::Failed(error)) => {
                buffer.clear();
                (SinkSession { stage: SinkStage::Chunk, buffer }, SinkAction::Receive(Some(error)))
            },
            (stage, _) => (SinkSession { stage, buffer }, SinkAction::Carry),
        }
    }
}

/// The session from its start to the first piece of the stream, when everything is done that it
/// asks for: it sets up a client that verifies certificates unless the settings say not to, connects
/// to the URL, publishes the broadcast under its name, and only then opens
/// the session on the connection.
pub proof fn law_sink_publishes_before_handshake<E>(settings: ResolvedSettings)
    ensures
        ({
            let client = sink_start::<E>(settings).0;
            &&& sink_start::<E>(settings).1 == SinkActionView::<E>::InitClient {
                disable_verify: settings.tls_disable_verify,
            }
            &&& client.buffer == Seq::<u8>::empty()
        }),
        ({
            let client = sink_start::<E>(settings).0;
            let connection = sink_next(client, SinkEventView::<E>::Done);
            let publication = sink_next(connection.0, SinkEventView::<E>::Done);
            let handshake = sink_next(publication.0, SinkEventView::<E>::Done);
            let ready = sink_next(handshake.0, SinkEventView::<E>::Done);
            &&& connection.1 == SinkActionView::<E>::Connect(settings.url)
            &&& publication.1 == SinkActionView::<E>::Publish(settings.broadcast@)
            &&& handshake.1 == SinkActionView::<E>::Handshake
            &&& ready.1 == SinkActionView::<E>::Receive(None)
            &&& ready.0 == SinkView { stage: SinkStageView::Chunk, buffer: seq![] }
        }),
{
}

/// The session after a piece of the stream has come and the importer has taken some bytes from
/// the front of the buffer.
pub open spec fn sink_fed(session: SinkView, chunk: Seq<u8>, taken: int) -> SinkView {
    let filled = sink_next(session, SinkEventView::<()>::Chunk(chunk)).0;
    let left = SinkView { buffer: filled.buffer.skip(taken), ..filled };
    sink_next(left, SinkEventView::<()>::Done).0
}

/// The session after pieces of the stream, of each of which the importer has taken some bytes.
pub open spec fn sink_after_chunks(
    session: SinkView,
    chunks: Seq<Seq<u8>>,
    taken: Seq<int>,
) -> SinkView
    decreases chunks.len(),
{
    if chunks.len() == 0 {
        session
    } else {
        sink_fed(
            sink_after_chunks(session, chunks.drop_last(), taken.drop_last()),
            chunks.last(),
            taken.last(),
        )
    }
}

/// What the importer has taken by then.
pub open spec fn sink_taken(
    session: SinkView,
    chunks: Seq<Seq<u8>>,
    taken: Seq<int>,
) -> Seq<u8>
    decreases chunks.len(),
{
    if chunks.len() == 0 {
        seq![]
    } else {
        let before = sink_after_chunks(session, chunks.drop_last(), taken.drop_last());
        sink_taken(session, chunks.drop_last(), taken.drop_last()) + (before.buffer
            + chunks.last()).take(taken.last())
    }
}

/// Whether the importer has taken no more than there was, each time.
pub open spec fn sink_takes_available(
    session: SinkView,
    chunks: Seq<Seq<u8>>,
    taken: Seq<int>,
) -> bool
    decreases chunks.len(),
{
    &&& chunks.len() == taken.len()
    &&& chunks.len() > 0 ==> {
        let before = sink_after_chunks(session, chunks.drop_last(), taken.drop_last());
        &&& sink_takes_available(session, chunks.drop_last(), taken.drop_last())
        &&& 0 <= taken.last() <= before.buffer.len() + chunks.last().len()
    }
}

/// As long as the importer does not fail, no byte of the stream is lost, repeated or moved: what
/// it has taken, followed by what is in the buffer, is what was in the buffer at first followed
/// by all that has come.
pub proof fn law_sink_keeps_the_stream(session: SinkView, chunks: Seq<Seq<u8>>, taken: Seq<int>)
    requires
        session.stage is Chunk,
        sink_takes_available(session, chunks, taken),
    ensures
        sink_after_chunks(session, chunks, taken).stage is Chunk,
        sink_taken(session, chunks, taken) + sink_after_chunks(session, chunks, taken).buffer
            == session.buffer + chunks.flatten(),
    decreases chunks.len(),
{
    let all_taken = sink_taken(session, chunks, taken);
    let after = sink_after_chunks(session, chunks, taken);
    if chunks.len() == 0 {
        assert(all_taken + after.buffer =~= session.buffer + chunks.flatten());
    } else {
        let earlier = chunks.drop_last();
        law_sink_keeps_the_stream(session, earlier, taken.drop_last());
        earlier.lemma_flatten_push(chunks.last());
        assert(earlier.push(chunks.last()) =~= chunks);
        let before = sink_after_chunks(session, earlier, taken.drop_last());
        let filled = before.buffer + chunks.last();
        assert(filled.take(taken.last()) + filled.skip(taken.last()) =~= filled);
        assert(all_taken + after.buffer =~= sink_taken(session, earlier, taken.drop_last())
            + filled);
        assert(sink_taken(session, earlier, taken.drop_last()) + filled =~= (sink_taken(
            session,
            earlier,
            taken.drop_last(),
        ) + before.buffer) + chunks.last());
        assert(session.buffer + chunks.flatten() =~= (session.buffer + earlier.flatten())
            + chunks.last());
    }
}

/// After a failure of the importer nothing that came before is kept: the importer next sees just
/// the piece of the stream that comes after it.
pub proof fn law_sink_starts_afresh_after_failure<E>(session: SinkView, error: E, chunk: Seq<u8>)
    requires
        session.stage is Decoder,
    ensures
        ({
            let cleared = sink_next(session, SinkEventView::Failed(error));
            let filled = sink_next(cleared.0, SinkEventView::<E>::Chunk(chunk));
            &&& cleared.1 == SinkActionView::Receive(Some(error))
            &&& filled.0 == SinkView { stage: SinkStageView::Decoder, buffer: chunk }
            &&& filled.1 == SinkActionView::<E>::Decode
        }),
{
    assert(Seq::<u8>::empty() + chunk =~= chunk);
}

/// Once a session is over it wants nothing more done, whatever it is told.
pub proof fn law_sink_stays_stopped<E>(session: SinkView, event: SinkEventView<E>)
    requires
        session.stage is Stopped,
    ensures
        sink_next(session, event) == (session, SinkActionView::<E>::Carry),
{
}

/// A session that cannot set up its client, make its connection or open its session stops for that
/// reason, and does nothing else.
pub proof fn law_sink_stops_for_the_reason<E>(settings: ResolvedSettings, error: E)
    ensures
        ({
            let failed = SinkEventView::Failed(error);
            let client = sink_start::<E>(settings).0;
            let connection = sink_next(client, SinkEventView::<E>::Done).0;
            let publication = sink_next(connection, SinkEventView::<E>::Done).0;
            let handshake = sink_next(publication, SinkEventView::<E>::Done).0;
            &&& sink_next(client, failed).0.stage is Stopped
            &&& sink_next(client, failed).1 == SinkActionView::Stop(
                Some(SinkFailure::InitClient(error)),
            )
            &&& sink_next(connection, failed).0.stage is Stopped
            &&& sink_next(connection, failed).1 == SinkActionView::Stop(
                Some(SinkFailure::Connect(error)),
            )
            &&& sink_next(handshake, failed).0.stage is Stopped
            &&& sink_next(handshake, failed).1 == SinkActionView::Stop(
                Some(SinkFailure::Handshake(error)),
            )
        }),
{
}

/// While a session waits for the stream, a piece that comes is put behind what is in the buffer and
/// then decoded; the end of the pieces or of the session stops it, without a failure. Once the
/// importer is done, what it has left in the buffer stays there, and the next piece is awaited.
pub proof fn law_sink_feeds_the_importer<E>(buffer: Seq<u8>, chunk: Seq<u8>)
    ensures
        ({
            let waiting = SinkView { stage: SinkStageView::Chunk, buffer };
            let decoding = SinkView { stage: SinkStageView::Decoder, buffer };
            let fed = sink_next(waiting, SinkEventView::<E>::Chunk(chunk));
            let told = sink_next(waiting, SinkEventView::<E>::Shutdown);
            let closed = sink_next(waiting, SinkEventView::<E>::Closed);
            let decoded = sink_next(decoding, SinkEventView::<E>::Done);
            &&& fed.0.buffer == buffer + chunk
            &&& fed.0.stage is Decoder
            &&& fed.1 is Decode
            &&& told.0.stage is Stopped
            &&& told.1 == SinkActionView::<E>::Stop(None)
            &&& closed.0.stage is Stopped
            &&& closed.1 == SinkActionView::<E>::Stop(None)
            &&& decoded.0.buffer == buffer
            &&& decoded.0.stage is Chunk
            &&& decoded.1 == SinkActionView::<E>::Receive(None)
        }),
{
}

/// Whether a session that waits for this has asked for something that the event answers.
pub open spec fn sink_awaits<E>(stage: SinkStageView, event: SinkEventView<E>) -> bool {
    match event {
        SinkEventView::Done => !(stage is Chunk) && !(stage is Stopped),
        SinkEventView::Failed(_) => stage is Client || stage is Connection || stage is Handshake
            || stage is Decoder,
        SinkEventView::Chunk(_) | SinkEventView::Shutdown | SinkEventView::Closed => stage is Chunk,
    }
}

/// An event that answers nothing changes nothing; and every event can be handled, but for a piece
/// of the stream that would not fit in the buffer.
pub proof fn law_sink_ignores_what_it_does_not_await<E>(session: SinkView, event: SinkEventView<E>)
    ensures
        !sink_awaits(session.stage, event) ==> sink_next(session, event) == (
            session,
            SinkActionView::<E>::Carry,
        ),
        sink_awaits(session.stage, event) ==> !(sink_next(session, event).1 is Carry),
        match event {
            SinkEventView::Chunk(data) => session.accepts(event) <==> (session.stage is Chunk
                ==> session.buffer.len() + data.len() <= isize::MAX / 4),
            _ => session.accepts(event),
        },
        CHANNEL_CAPACITY == 32,
{
}

/// The values of payloads, events and actions have what these hold.
pub proof fn law_sink_values_have_every_part<E>(
    payload: BufferPayload,
    event: SinkEvent<E>,
    action: SinkAction<E>,
)
    ensures
        payload@ == bytes_of(payload.data),
        match event {
            SinkEvent::Done => event@ is Done,
            SinkEvent::Failed(error) => event@ == SinkEventView::Failed(error),
            SinkEvent::Chunk(chunk) => event@ == SinkEventView::<E>::Chunk(bytes_of(chunk.data)),
            SinkEvent::Shutdown => event@ is Shutdown,
            SinkEvent::Closed => event@ is Closed,
        },
        match action {
            SinkAction::InitClient { disable_verify } => action@
                == SinkActionView::<E>::InitClient { disable_verify },
            SinkAction::Connect(url) => action@ == SinkActionView::<E>::Connect(url),
            SinkAction::Publish(name) => action@ == SinkActionView::<E>::Publish(name@),
            SinkAction::Handshake => action@ is Handshake,
            SinkAction::Receive(error) => action@ == SinkActionView::Receive(error),
            SinkAction::Decode => action@ is Decode,
            SinkAction::Stop(failure) => action@ == SinkActionView::Stop(failure),
            SinkAction::Carry => action@ is Carry,
        },
{
}

} // verus!
