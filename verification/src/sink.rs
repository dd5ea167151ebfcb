//! The sink element.

use vstd::prelude::*;
use vstd::string::*;

use crate::caps::{
    fields_view, text_field, Caps, CapsField, CapsView, FieldValue, FieldValueView,
};
use crate::element::{
    templates_view, ElementMetadata, ElementMetadataView, PadDirection, PadPresence, PadTemplate,
    PadTemplateView,
};
use crate::outside::{bytes_of, url_parsed};
use crate::properties::{
    accepts, default_of, is_property, property_of, with_property, PropertyKind, PropertySpec,
    PropertySpecView, PropertyValue,
};
use crate::settings::{resolution, ResolvedSettings, Settings, SettingsError, SettingsView};
use crate::sink_session::BufferPayload;

verus! {

/// Why a buffer was not taken.
#[derive(Debug, Clone, Copy, PartialEq, Eq, Structural)]
pub enum FlowError {
    /// The buffer could not be read.
    Error,
    /// No session takes buffers.
    Flushing,
}

/// The sink element: its settings, and what it has running. `W` is where buffers are sent, `S`
/// the session.
#[derive(Debug)]
pub struct MoqSink<W, S> {
    settings: Settings,
    writer: Option<W>,
    session: Option<S>,
}

/// The value of a `MoqSink`.
pub struct MoqSinkView<W, S> {
    pub settings: Settings,
    pub writer: Option<W>,
    pub session: Option<S>,
}

impl<W, S> View for MoqSink<W, S> {
    type V = MoqSinkView<W, S>;

    closed spec fn view(&self) -> MoqSinkView<W, S> {
        MoqSinkView { settings: self.settings, writer: self.writer, session: self.session }
    }
}

/// The properties of the sink element.
pub open spec fn sink_properties() -> Seq<PropertySpecView> {
    seq![
        PropertySpecView {
            name: "url"@,
            nick: "Relay URL"@,
            blurb: "Connect and publish to the given URL"@,
            kind: PropertyKind::Text,
        },
        PropertySpecView {
            name: "broadcast"@,
            nick: "Broadcast"@,
            blurb: "Broadcast name to publish"@,
            kind: PropertyKind::Text,
        },
        PropertySpecView {
            name: "tls-disable-verify"@,
            nick: "TLS Disable Verify"@,
            blurb: "Disable TLS certificate verification"@,
            kind: PropertyKind::Flag { default: false },
        },
    ]
}

/// The pad templates of the sink element: one pad, for fragmented MP4.
pub open spec fn sink_templates() -> Seq<PadTemplateView> {
    seq![
        PadTemplateView {
            name: "sink"@,
            direction: PadDirection::Sink,
            presence: PadPresence::Always,
            caps: CapsView::Structure {
                media_type: "video/quicktime"@,
                fields: seq![text_field("variant"@, "iso-fragmented"@)],
            },
        },
    ]
}

impl<W, S> MoqSinkView<W, S> {
    /// An element that nothing has been done with.
    pub open spec fn is_new(self) -> bool {
        &&& self.settings@ == SettingsView {
            url: None,
            broadcast: None,
            tls_disable_verify: false,
        }
        &&& self.writer is None
        &&& self.session is None
    }

    /// Whether the element has all that belongs to a session, or nothing of it.
    pub open spec fn session_is_whole(self) -> bool {
        self.session is Some <==> self.writer is Some
    }

    /// The element with a session running.
    pub open spec fn with_session(self, writer: W, session: S) -> Self {
        MoqSinkView { writer: Some(writer), session: Some(session), ..self }
    }

    /// The element without a session.
    pub open spec fn without_session(self) -> Self {
        MoqSinkView { writer: None, session: None, ..self }
    }

    /// Where a buffer is sent and what is sent there, or why the buffer is not taken. `data` is
    /// what the buffer holds, if it can be read.
    pub open spec fn rendering(self, data: Option<Seq<u8>>) -> Result<(W, Seq<u8>), FlowError> {
        match (data, self.writer) {
            (None, _) => Err(FlowError::Error),
            (Some(_), None) => Err(FlowError::Flushing),
            (Some(data), Some(writer)) => Ok((writer, data)),
        }
    }
}

/// The bytes of a buffer, if it can be read.
pub open spec fn data_view(data: Option<&[u8]>) -> Option<Seq<u8>> {
    match data {
        Some(data) => Some(data@),
        None => None,
    }
}

/// The value of what `render` returns.
pub open spec fn rendering_view<W>(rendering: Result<(&W, BufferPayload), FlowError>) -> Result<
    (W, Seq<u8>),
    FlowError,
> {
    match rendering {
        Ok((writer, payload)) => Ok((*writer, payload@)),
        Err(error) => Err(error),
    }
}

impl<W, S> MoqSink<W, S> {
    /// Whether the element is as its operations leave it.
    pub closed spec fn wf(&self) -> bool {
        self@.session_is_whole()
    }

    /// An element.
    pub fn new() -> (element: Self)
        ensures
            element.wf(),
            element@.is_new(),
    {
        MoqSink { settings: Settings::default(), writer: None, session: None }
    }

    /// The properties of the element.
    pub fn properties() -> (properties: Vec<PropertySpec>)
        ensures
            properties.len() == sink_properties().len(),
            properties@.map_values(|property: PropertySpec| property@) == sink_properties(),
    {
        let mut properties: Vec<PropertySpec> = Vec::new();
        properties.push(
            PropertySpec {
                name: "url",
                nick: "Relay URL",
                blurb: "Connect and publish to the given URL",
                kind: PropertyKind::Text,
            },
        );
        properties.push(
            PropertySpec {
                name: "broadcast",
                nick: "Broadcast",
                blurb: "Broadcast name to publish",
                kind: PropertyKind::Text,
            },
        );
        properties.push(
            PropertySpec {
                name: "tls-disable-verify",
                nick: "TLS Disable Verify",
                blurb: "Disable TLS certificate verification",
                kind: PropertyKind::Flag { default: false },
            },
        );
        assert(properties@.map_values(|property: PropertySpec| property@) =~= sink_properties());
        properties
    }

    /// Sets a property.
    pub fn set_property(&mut self, name: &str, value: PropertyValue)
        requires
            old(self).wf(),
            accepts(name@, value@),
        ensures
            final(self).wf(),
            final(self)@.settings@ == with_property(old(self)@.settings@, name@, value@),
            final(self)@ == (MoqSinkView { settings: final(self)@.settings, ..old(self)@ }),
    {
        self.settings.set_property(name, value);
    }

    /// Reads a property.
    pub fn property(&self, name: &str) -> (value: PropertyValue)
        requires
            is_property(name@),
        ensures
            value@ == property_of(self@.settings@, name@),
    {
        self.settings.property(name)
    }

    /// What the element says of itself.
    pub fn metadata() -> (metadata: ElementMetadata)
        ensures
            metadata@ == (ElementMetadataView {
                long_name: "MoQ Sink (ref)"@,
                classification: "Sink/Network/MoQ"@,
                description: "Publishes CMAF fragments over MoQ"@,
                author:
                    "Luke Curley <kixelated@gmail.com>, Steve McFarlin <steve@stevemcfarlin.com>"@,
            }),
    {
        ElementMetadata {
            long_name: "MoQ Sink (ref)",
            classification: "Sink/Network/MoQ",
            description: "Publishes CMAF fragments over MoQ",
            author: "Luke Curley <kixelated@gmail.com>, Steve McFarlin <steve@stevemcfarlin.com>",
        }
    }

    /// The pads that the element has.
    pub fn pad_templates() -> (templates: Vec<PadTemplate>)
        ensures
            templates.len() == sink_templates().len(),
            templates_view(templates@) == sink_templates(),
    {
        let mut fields: Vec<CapsField> = Vec::new();
        fields.push(CapsField { name: "variant", value: FieldValue::Text("iso-fragmented") });
        assert(fields_view(fields@) =~= seq![text_field("variant"@, "iso-fragmented"@)]);
        let caps = Caps::Structure { media_type: "video/quicktime", fields };
        let mut templates: Vec<PadTemplate> = Vec::new();
        templates.push(
            PadTemplate {
                name: "sink",
                direction: PadDirection::Sink,
                presence: PadPresence::Always,
                caps,
            },
        );
        assert(templates_view(templates@) =~= sink_templates());
        templates
    }

    /// The settings for a session that is to be started, if they are good for one.
    pub fn start_session(&self) -> (settings: Result<ResolvedSettings, SettingsError>)
        ensures
            settings == resolution(self@.settings, url_parsed(self@.settings.url->0@)),
    {
        ResolvedSettings::try_from(self.settings.clone())
    }

    /// Takes in a session that has been started.
    pub fn session_started(&mut self, writer: W, session: S)
        requires
            old(self).wf(),
        ensures
            final(self).wf(),
            final(self)@ == old(self)@.with_session(writer, session),
    {
        self.writer = Some(writer);
        self.session = Some(session);
    }

    /// Stops the session: gives it up, to be shut down, and takes no more buffers.
    pub fn stop_session(&mut self) -> (session: Option<S>)
        requires
            old(self).wf(),
        ensures
            final(self).wf(),
            final(self)@ == old(self)@.without_session(),
            session == old(self)@.session,
    {
        let session = self.session.take();
        self.writer = None;
        session
    }

    /// What a buffer is to be sent as, and where to. `data` is what the buffer holds, if it can be
    /// read.
    pub fn render(&self, data: Option<&[u8]>) -> (rendering: Result<
        (&W, BufferPayload),
        FlowError,
    >)
        ensures
            rendering_view(rendering) == self@.rendering(data_view(data)),
    {
        match data {
            None => Err(FlowError::Error),
            Some(data) => match &self.writer {
                None => Err(FlowError::Flushing),
                Some(writer) => {
                    let payload = BufferPayload { data: bytes::Bytes::copy_from_slice(data) };
                    Ok((writer, payload))
                },
            },
        }
    }
}

/// What comes of a buffer that was sent, or could not be because the session is gone.
pub fn render_result(sent: bool) -> (result: Result<(), FlowError>)
    ensures
        result == (if sent {
            Ok(())
        } else {
            Err(FlowError::Flushing)
        }),
{
    if sent {
        Ok(())
    } else {
        Err(FlowError::Flushing)
    }
}

/// The message that reports a session which could not be started.
pub fn start_error_message(error: &SettingsError) -> (message: String)
    ensures
        *error is MissingUrl ==> message@ == "failed to start MoQ session: "@
            + "url property is required"@,
        *error is MissingBroadcast ==> message@ == "failed to start MoQ session: "@
            + "broadcast property is required"@,
        *error matches SettingsError::InvalidUrl(parse_error) ==> exists|text: String|
            #[trigger] to_string_from_display_ensures(&parse_error, text) && message@
                == "failed to start MoQ session: "@ + text@,
{
    let text = error.message();
    "failed to start MoQ session: ".to_string().concat(text.as_str())
}

/// Each property of the element can be read, can be set to values of its type, and reads as its
/// default before it has been set.
pub proof fn law_sink_properties_are_served<W, S>(element: MoqSinkView<W, S>, index: int)
    requires
        element.is_new(),
        0 <= index < sink_properties().len(),
    ensures
        is_property(sink_properties()[index].name),
        accepts(sink_properties()[index].name, default_of(sink_properties()[index].kind)),
        property_of(element.settings@, sink_properties()[index].name) == default_of(
            sink_properties()[index].kind,
        ),
{
    reveal_strlit("url");
    reveal_strlit("broadcast");
    reveal_strlit("tls-disable-verify");
    assert("url"@.len() == 3 && "broadcast"@.len() == 9 && "tls-disable-verify"@.len() == 18);
}

/// An element that only its operations have changed has a session and the place where buffers are
/// sent, or it has neither.
pub proof fn law_sink_session_is_whole<W, S>(element: MoqSink<W, S>)
    requires
        element.wf(),
    ensures
        element@.session is Some <==> element@.writer is Some,
{
}

/// An element takes buffers, as they are, for as long as its session runs, and none before or
/// after that.
pub proof fn law_sink_takes_buffers_during_session<W, S>(
    element: MoqSinkView<W, S>,
    fresh: MoqSinkView<W, S>,
    writer: W,
    session: S,
    data: Seq<u8>,
)
    requires
        fresh.is_new(),
    ensures
        fresh.rendering(Some(data)) == Err::<(W, Seq<u8>), FlowError>(FlowError::Flushing),
        element.with_session(writer, session).rendering(Some(data)) == Ok::<
            (W, Seq<u8>),
            FlowError,
        >((writer, data)),
        element.without_session().rendering(Some(data)) == Err::<(W, Seq<u8>), FlowError>(
            FlowError::Flushing,
        ),
        element.with_session(writer, session).without_session() == element.without_session(),
{
}

/// The element announces a text for the URL, a text for the broadcast, and a flag, off at first,
/// for leaving certificates unverified; and nothing else.
pub proof fn law_sink_announces_its_properties()
    ensures
        ({
            let properties = sink_properties();
            &&& properties.len() == 3
            &&& properties[0].name == "url"@
            &&& properties[0].nick == "Relay URL"@
            &&& properties[0].blurb == "Connect and publish to the given URL"@
            &&& properties[0].kind is Text
            &&& properties[1].name == "broadcast"@
            &&& properties[1].nick == "Broadcast"@
            &&& properties[1].blurb == "Broadcast name to publish"@
            &&& properties[1].kind is Text
            &&& properties[2].name == "tls-disable-verify"@
            &&& properties[2].nick == "TLS Disable Verify"@
            &&& properties[2].blurb == "Disable TLS certificate verification"@
            &&& properties[2].kind == PropertyKind::Flag { default: false }
        }),
{
}

/// The element has one pad at all times: a sink pad for fragmented MP4.
pub proof fn law_sink_takes_fragmented_mp4()
    ensures
        sink_templates().len() == 1,
        sink_templates()[0].name == "sink"@,
        sink_templates()[0].direction is Sink,
        sink_templates()[0].presence is Always,
        match sink_templates()[0].caps {
            CapsView::Any => false,
            CapsView::Structure { media_type, fields } => {
                &&& media_type == "video/quicktime"@
                &&& fields.len() == 1
                &&& fields[0] == ("variant"@, FieldValueView::Text("iso-fragmented"@))
            },
        },
{
}

/// A buffer that cannot be read is an error, with or without a session. One that can is sent as it
/// is to where the session takes buffers, and flushed if there is no such place.
pub proof fn law_sink_sends_buffers_as_they_are<W, S>(
    element: MoqSinkView<W, S>,
    data: Option<Seq<u8>>,
)
    ensures
        match element.rendering(data) {
            Ok((writer, sent)) => data == Some(sent) && element.writer == Some(writer),
            Err(FlowError::Error) => data is None,
            Err(FlowError::Flushing) => data is Some && element.writer is None,
        },
{
}

/// A new element has no settings and no session. Starting a session adds the session and where it
/// takes buffers, and stopping takes both away. Nothing else of the element changes.
pub proof fn law_sink_has_what_it_was_given<W, S>(
    element: MoqSinkView<W, S>,
    writer: W,
    session: S,
)
    ensures
        element.is_new() ==> {
            &&& element.settings.url is None
            &&& element.settings.broadcast is None
            &&& !element.settings.tls_disable_verify
            &&& element.writer is None
            &&& element.session is None
        },
        ({
            let started = element.with_session(writer, session);
            &&& started.writer == Some(writer)
            &&& started.session == Some(session)
            &&& started.settings == element.settings
        }),
        ({
            let stopped = element.without_session();
            &&& stopped.writer is None
            &&& stopped.session is None
            &&& stopped.settings == element.settings
        }),
{
}

/// The values of what goes into `render` and comes out of it have what these hold.
pub proof fn law_render_values_have_every_part<W>(
    data: Option<&[u8]>,
    rendering: Result<(&W, BufferPayload), FlowError>,
)
    ensures
        match data {
            Some(bytes) => data_view(data) == Some(bytes@),
            None => data_view(data) is None,
        },
        match rendering {
            Ok((writer, payload)) => rendering_view(rendering) == Ok::<(W, Seq<u8>), FlowError>(
                (*writer, bytes_of(payload.data)),
            ),
            Err(error) => rendering_view(rendering) == Err::<(W, Seq<u8>), FlowError>(error),
        },
{
}

} // verus!
