//! The source element.

use vstd::prelude::*;

use crate::caps::{Caps, CapsView};
use crate::element::{
    templates_view, ElementMetadata, ElementMetadataView, PadDirection, PadPresence, PadTemplate,
    PadTemplateView,
};
use crate::outside::url_parsed;
use crate::pad_setup::{
    law_pad_is_ready_before_it_is_added, pad_actions, pad_start, pad_steps_done, PadSetupActionView,
};
use crate::pads::{
    entries_map, has_name, index_of_name, names_are_distinct, PadEntry, PadTable,
};
use crate::pump::{PadMessage, PadMessageView};
use crate::properties::{
    accepts, default_of, is_property, property_of, with_property, PropertyKind, PropertySpec,
    PropertySpecView, PropertyValue,
};
use crate::service::{
    given_up_operations, law_given_up_pad_is_retired_once, retires, PadAnswers,
};
use crate::settings::{resolution, ResolvedSettings, Settings, SettingsError, SettingsView};
use crate::source_session::SessionError;
use crate::track::{template_name_of, TrackDescriptor, TrackDescriptorView, TrackKind};

verus! {

/// What is asked of the element by its session. `R` is where an answer goes; `E` is what the
/// transport reports.
#[derive(Debug)]
pub enum ControlMessage<R, E> {
    /// Make a pad for a track.
    CreatePad { descriptor: TrackDescriptor, caps: Caps, reply: R },
    /// Remove the pad of that name.
    DropPad { pad_name: String },
    /// No more pads will come.
    NoMorePads,
    /// The session has failed.
    ReportError(SessionError<E>),
}

/// What the element does about a control message. `P` is how a pad is served.
#[derive(Debug)]
pub enum ControlAction<P, R, E> {
    /// Make a pad for a track.
    CreatePad { descriptor: TrackDescriptor, caps: Caps, reply: R },
    /// Send the pad the message, which tells it to go. The pad is served until that has been
    /// carried out; if its service ends before, `finish_given_up_pad` says what is left to do.
    DropPad { handle: P, message: PadMessage },
    /// Signal that no more pads will come.
    SignalNoMorePads,
    /// Post the error, under `session_error_text`.
    PostError(SessionError<E>),
    /// Nothing.
    Nothing,
}

/// A pad that the element has given up.
#[derive(Debug)]
pub struct GivenUpPad<P> {
    pub name: String,
    pub handle: P,
    /// What is sent to the pad.
    pub message: PadMessage,
}

/// Pads that were given up, as they stood in the table.
pub open spec fn given_up_entries<P>(pads: Seq<GivenUpPad<P>>) -> Seq<PadEntry<P>> {
    Seq::new(pads.len(), |i: int| PadEntry { name: pads[i].name, handle: pads[i].handle })
}

/// Whether each of the pads is told to go.
pub open spec fn all_told_to_go<P>(pads: Seq<GivenUpPad<P>>) -> bool {
    forall|i: int| 0 <= i < pads.len() ==> (#[trigger] pads[i]).message@ is Drop
}

/// What stopping a session leaves to be done.
#[derive(Debug)]
pub struct StoppedSession<P, T, S> {
    /// The session, to be shut down.
    pub session: Option<S>,
    /// The task that takes control messages, to be aborted.
    pub control_task: Option<T>,
    /// The pads, each to be sent its message, which tells it to go. A pad is served until that
    /// has been carried out; if its service ends before, `finish_given_up_pad` says what is left
    /// to do.
    pub pads: Vec<GivenUpPad<P>>,
}

/// The source element: its settings, and what it has running. `P` is how a pad is served, `T`
/// the task that takes control messages, `C` where they are sent, `S` the session.
#[derive(Debug)]
pub struct MoqSrc<P, T, C, S> {
    settings: Settings,
    pads: PadTable<P>,
    control_task: Option<T>,
    control_sender: Option<C>,
    session: Option<S>,
}

/// The value of a `MoqSrc`.
pub struct MoqSrcView<P, T, C, S> {
    pub settings: Settings,
    pub pads: Map<Seq<char>, P>,
    pub control_task: Option<T>,
    pub control_sender: Option<C>,
    pub session: Option<S>,
}

impl<P, T, C, S> View for MoqSrc<P, T, C, S> {
    type V = MoqSrcView<P, T, C, S>;

    closed spec fn view(&self) -> MoqSrcView<P, T, C, S> {
        MoqSrcView {
            settings: self.settings,
            pads: self.pads@,
            control_task: self.control_task,
            control_sender: self.control_sender,
            session: self.session,
        }
    }
}

/// The properties of the source element.
pub open spec fn source_properties() -> Seq<PropertySpecView> {
    seq![
        PropertySpecView {
            name: "url"@,
            nick: "Source URL"@,
            blurb: "Connect to the given URL"@,
            kind: PropertyKind::Text,
        },
        PropertySpecView {
            name: "broadcast"@,
            nick: "Broadcast"@,
            blurb: "The broadcast name to subscribe to"@,
            kind: PropertyKind::Text,
        },
        PropertySpecView {
            name: "tls-disable-verify"@,
            nick: "TLS Disable Verify"@,
            blurb: "Disable TLS certificate verification"@,
            kind: PropertyKind::Flag { default: false },
        },
    ]
}

/// The template of the pads for tracks of that kind.
pub open spec fn source_template(kind: TrackKind) -> PadTemplateView {
    PadTemplateView {
        name: template_name_of(kind),
        direction: PadDirection::Src,
        presence: PadPresence::Sometimes,
        caps: CapsView::Any,
    }
}

/// The pad templates of the source element.
pub open spec fn source_templates() -> Seq<PadTemplateView> {
    seq![source_template(TrackKind::Video), source_template(TrackKind::Audio)]
}

impl<P, T, C, S> MoqSrcView<P, T, C, S> {
    /// An element that nothing has been done with.
    pub open spec fn is_new(self) -> bool {
        &&& self.settings@ == SettingsView {
            url: None,
            broadcast: None,
            tls_disable_verify: false,
        }
        &&& self.pads == Map::<Seq<char>, P>::empty()
        &&& self.control_task is None
        &&& self.control_sender is None
        &&& self.session is None
    }

    /// Whether the element has all that belongs to a session, or nothing of it.
    pub open spec fn session_is_whole(self) -> bool {
        &&& self.session is Some <==> self.control_task is Some
        &&& self.session is Some <==> self.control_sender is Some
    }

    /// The element with a session running.
    pub open spec fn with_session(self, control_task: T, control_sender: C, session: S) -> Self {
        MoqSrcView {
            control_task: Some(control_task),
            control_sender: Some(control_sender),
            session: Some(session),
            ..self
        }
    }

    /// The element without a session and without pads.
    pub open spec fn without_session(self) -> Self {
        MoqSrcView {
            pads: Map::empty(),
            control_task: None,
            control_sender: None,
            session: None,
            ..self
        }
    }

    /// The element with a pad for a track.
    pub open spec fn with_pad(self, descriptor: TrackDescriptorView, handle: P) -> Self {
        MoqSrcView { pads: self.pads.insert(descriptor.pad_name(), handle), ..self }
    }

    /// The element without the pad of that name.
    pub open spec fn without_pad(self, name: Seq<char>) -> Self {
        MoqSrcView { pads: self.pads.remove(name), ..self }
    }

    /// The pad of that name, if there is one.
    pub open spec fn pad(self, name: Seq<char>) -> Option<P> {
        if self.pads.dom().contains(name) {
            Some(self.pads[name])
        } else {
            None
        }
    }

    /// The element after a control message.
    pub open spec fn after_message<R, E>(self, message: ControlMessage<R, E>) -> Self {
        match message {
            ControlMessage::DropPad { pad_name } => self.without_pad(pad_name@),
            _ => self,
        }
    }

    /// What the element does about a control message.
    pub open spec fn action_for<R, E>(self, message: ControlMessage<R, E>) -> ControlAction<P, R, E> {
        match message {
            ControlMessage::CreatePad { descriptor, caps, reply } => ControlAction::CreatePad {
                descriptor,
                caps,
                reply,
            },
            ControlMessage::DropPad { pad_name } => match self.pad(pad_name@) {
                Some(handle) => ControlAction::DropPad { handle, message: PadMessage::Drop },
                None => ControlAction::Nothing,
            },
            ControlMessage::NoMorePads => ControlAction::SignalNoMorePads,
            ControlMessage::ReportError(error) => ControlAction::PostError(error),
        }
    }
}

impl<P, T, C, S> MoqSrc<P, T, C, S> {
    /// Whether the element is as its operations leave it.
    pub closed spec fn wf(&self) -> bool {
        &&& self.pads.wf()
        &&& self@.session_is_whole()
    }

    /// An element.
    pub fn new() -> (element: Self)
        ensures
            element.wf(),
            element@.is_new(),
    {
        MoqSrc {
            settings: Settings::default(),
            pads: PadTable::new(),
            control_task: None,
            control_sender: None,
            session: None,
        }
    }

    /// The properties of the element.
    pub fn properties() -> (properties: Vec<PropertySpec>)
        ensures
            properties.len() == source_properties().len(),
            properties@.map_values(|property: PropertySpec| property@) == source_properties(),
    {
        let mut properties: Vec<PropertySpec> = Vec::new();
        properties.push(
            PropertySpec {
                name: "url",
                nick: "Source URL",
                blurb: "Connect to the given URL",
                kind: PropertyKind::Text,
            },
        );
        properties.push(
            PropertySpec {
                name: "broadcast",
                nick: "Broadcast",
                blurb: "The broadcast name to subscribe to",
                kind: PropertyKind::Text,
            },
        );
        properties.push(
            PropertySpec {
                name: "tls-disable-verify",
                nick: "TLS Disable Verify",
                blurb: "Disable TLS certificate verification",
                kind: PropertyKind::Flag { default: false },
            },
        );
        assert(properties@.map_values(|property: PropertySpec| property@) =~= source_properties());
        properties
    }

    /// Sets a property.
    pub fn set_property(&mut self, name: &str, value: PropertyValue)
        requires
            old(self).wf(),
            accepts(name@, value@),
        ensures
            final(self).wf(),
            final(self)@.settings@ == with_property(old(self)@.settings@, name@, value@),
            final(self)@ == (MoqSrcView { settings: final(self)@.settings, ..old(self)@ }),
    {
        self.settings.set_property(name, value);
    }

    /// Reads a property.
    pub fn property(&self, name: &str) -> (value: PropertyValue)
        requires
            is_property(name@),
        ensures
            value@ == property_of(self@.settings@, name@),
    {
        self.settings.property(name)
    }

    /// What the element says of itself.
    pub fn metadata() -> (metadata: ElementMetadata)
        ensures
            metadata@ == (ElementMetadataView {
                long_name: "MoQ Src (ref)"@,
                classification: "Source/Network/MoQ"@,
                description: "Receives media over the network via MoQ"@,
                author:
                    "Luke Curley <kixelated@gmail.com>, Steve McFarlin <steve@stevemcfarlin.com>"@,
            }),
    {
        ElementMetadata {
            long_name: "MoQ Src (ref)",
            classification: "Source/Network/MoQ",
            description: "Receives media over the network via MoQ",
            author: "Luke Curley <kixelated@gmail.com>, Steve McFarlin <steve@stevemcfarlin.com>",
        }
    }

    /// The pads that the element can have.
    pub fn pad_templates() -> (templates: Vec<PadTemplate>)
        ensures
            templates.len() == source_templates().len(),
            templates_view(templates@) == source_templates(),
    {
        let mut templates: Vec<PadTemplate> = Vec::new();
        templates.push(
            PadTemplate {
                name: "video_%u",
                direction: PadDirection::Src,
                presence: PadPresence::Sometimes,
                caps: Caps::Any,
            },
        );
        templates.push(
            PadTemplate {
                name: "audio_%u",
                direction: PadDirection::Src,
                presence: PadPresence::Sometimes,
                caps: Caps::Any,
            },
        );
        assert(templates_view(templates@) =~= source_templates());
        templates
    }

    /// The settings for a session that is to be started, if they are good for one.
    pub fn start_session(&self) -> (settings: Result<ResolvedSettings, SettingsError>)
        ensures
            settings == resolution(self@.settings, url_parsed(self@.settings.url->0@)),
    {
        ResolvedSettings::try_from(self.settings.clone())
    }

    /// Takes in a session that has been started.
    pub fn session_started(&mut self, control_task: T, control_sender: C, session: S)
        requires
            old(self).wf(),
        ensures
            final(self).wf(),
            final(self)@ == old(self)@.with_session(control_task, control_sender, session),
    {
        self.control_task = Some(control_task);
        self.control_sender = Some(control_sender);
        self.session = Some(session);
    }

    /// Stops the session: gives up all that it had running.
    pub fn stop_session(&mut self) -> (stopped: StoppedSession<P, T, S>)
        requires
            old(self).wf(),
        ensures
            final(self).wf(),
            final(self)@ == old(self)@.without_session(),
            stopped.session == old(self)@.session,
            stopped.control_task == old(self)@.control_task,
            names_are_distinct(given_up_entries(stopped.pads@)),
            entries_map(given_up_entries(stopped.pads@)) == old(self)@.pads,
            all_told_to_go(stopped.pads@),
            forall|i: int|
                0 <= i < stopped.pads.len() ==> (#[trigger] stopped.pads@[i]).message is Drop
                    && old(self)@.pads.dom().contains(stopped.pads@[i].name@)
                    && old(self)@.pads[stopped.pads@[i].name@] == stopped.pads@[i].handle,
            forall|name: Seq<char>| #[trigger]
                old(self)@.pads.dom().contains(name) ==> exists|i: int|
                    0 <= i < stopped.pads.len() && (#[trigger] stopped.pads@[i]).name@ == name,
    {
        let session = self.session.take();
        let control_task = self.control_task.take();
        let entries = self.pads.drain();
        self.control_sender = None;
        let ghost all = entries@;
        let mut pads: Vec<GivenUpPad<P>> = Vec::new();
        for entry in iter: entries
            invariant
                iter.seq() == all,
                given_up_entries(pads@) == all.take(iter.index() as int),
                all_told_to_go(pads@),
                pads.len() == iter.index(),
                forall|i: int|
                    0 <= i < pads.len() ==> (#[trigger] pads@[i]).message is Drop && pads@[i].name
                        == all[i].name && pads@[i].handle == all[i].handle,
        {
            let ghost before = pads@;
            pads.push(
                GivenUpPad { name: entry.name, handle: entry.handle, message: PadMessage::Drop },
            );
            assert(given_up_entries(pads@) =~= given_up_entries(before).push(entry));
            assert(given_up_entries(pads@) =~= all.take(iter.index() + 1));
        }
        assert(all.take(all.len() as int) =~= all);
        assert forall|name: Seq<char>| #[trigger] old(self)@.pads.dom().contains(
            name,
        ) implies exists|i: int| 0 <= i < pads.len() && (#[trigger] pads@[i]).name@ == name by {
            let i = choose|i: int| 0 <= i < all.len() && (#[trigger] all[i]).name@ == name;
            assert(pads@[i].name@ == name);
        }
        StoppedSession { session, control_task, pads }
    }

    /// Takes in a control message.
    pub fn handle_control_message<R, E>(
        &mut self,
        message: ControlMessage<R, E>,
    ) -> (action: ControlAction<P, R, E>)
        requires
            old(self).wf(),
        ensures
            final(self).wf(),
            final(self)@ == old(self)@.after_message(message),
            action == old(self)@.action_for(message),
    {
        match message {
            ControlMessage::CreatePad { descriptor, caps, reply } => ControlAction::CreatePad {
                descriptor,
                caps,
                reply,
            },
            ControlMessage::DropPad { pad_name } => match self.pads.remove(&pad_name) {
                Some(handle) => ControlAction::DropPad { handle, message: PadMessage::Drop },
                None => ControlAction::Nothing,
            },
            ControlMessage::NoMorePads => ControlAction::SignalNoMorePads,
            ControlMessage::ReportError(error) => ControlAction::PostError(error),
        }
    }

    /// Takes in a pad that has been made for a track, in place of one of the same name.
    pub fn register_pad(&mut self, descriptor: &TrackDescriptor, handle: P) -> (replaced: Option<P>)
        requires
            old(self).wf(),
        ensures
            final(self).wf(),
            final(self)@ == old(self)@.with_pad(descriptor@, handle),
            replaced == old(self)@.pad(descriptor@.pad_name()),
    {
        self.pads.insert(descriptor.pad_name(), handle)
    }
}

/// The text that is posted with the error of a session, whatever the error is.
pub fn session_error_text() -> (text: &'static str)
    ensures
        text@ == "session error"@,
{
    "session error"
}

/// What is reported of the way in which a session has ended: a failure, and nothing else.
pub fn session_report<R, E>(ending: Result<(), SessionError<E>>) -> (report: Option<
    ControlMessage<R, E>,
>)
    ensures
        report == (match ending {
            Ok(_) => None::<ControlMessage<R, E>>,
            Err(error) => Some(ControlMessage::ReportError(error)),
        }),
{
    match ending {
        Ok(_) => None,
        Err(error) => Some(ControlMessage::ReportError(error)),
    }
}

/// Each property of the element can be read, can be set to values of its type, and reads as its
/// default before it has been set.
pub proof fn law_source_properties_are_served<P, T, C, S>(
    element: MoqSrcView<P, T, C, S>,
    index: int,
)
    requires
        element.is_new(),
        0 <= index < source_properties().len(),
    ensures
        is_property(source_properties()[index].name),
        accepts(source_properties()[index].name, default_of(source_properties()[index].kind)),
        property_of(element.settings@, source_properties()[index].name) == default_of(
            source_properties()[index].kind,
        ),
{
    reveal_strlit("url");
    reveal_strlit("broadcast");
    reveal_strlit("tls-disable-verify");
    assert("url"@.len() == 3 && "broadcast"@.len() == 9 && "tls-disable-verify"@.len() == 18);
}

/// The element has a template for the pads of every track.
pub proof fn law_source_has_every_template(kind: TrackKind)
    ensures
        source_templates().contains(source_template(kind)),
        source_template(kind).name == template_name_of(kind),
{
    assert(source_templates()[0] == source_template(TrackKind::Video));
    assert(source_templates()[1] == source_template(TrackKind::Audio));
}

/// An element that only its operations have changed has a session with both the task that takes
/// control messages and the place where they are sent, or it has none of the three.
pub proof fn law_session_is_whole<P, T, C, S>(element: MoqSrc<P, T, C, S>)
    requires
        element.wf(),
    ensures
        element@.session is Some <==> element@.control_task is Some,
        element@.session is Some <==> element@.control_sender is Some,
{
}

/// Stopping a session undoes starting it and making pads in it, and an element that has neither
/// session nor pads is what stopping leaves.
pub proof fn law_stop_undoes_start<P, T, C, S>(
    element: MoqSrcView<P, T, C, S>,
    control_task: T,
    control_sender: C,
    session: S,
    descriptor: TrackDescriptorView,
    handle: P,
)
    ensures
        element.with_session(control_task, control_sender, session).without_session()
            == element.without_session(),
        element.with_pad(descriptor, handle).without_session() == element.without_session(),
        element.pads == Map::<Seq<char>, P>::empty() && element.control_task is None
            && element.control_sender is None && element.session is None
            ==> element.without_session() == element,
{
}

/// Each pad that an element has is among those that stopping gives up, under its name, and what is
/// sent to it there retires it, whatever else still waits for the pad.
pub proof fn law_stopped_pad_is_retired<P, T, C, S>(
    element: MoqSrcView<P, T, C, S>,
    pads: Seq<GivenUpPad<P>>,
    name: Seq<char>,
    waiting: Seq<PadMessageView>,
    serving: bool,
    answers: spec_fn(int) -> PadAnswers,
)
    requires
        entries_map(given_up_entries(pads)) == element.pads,
        all_told_to_go(pads),
        element.pad(name) is Some,
    ensures
        exists|i: int|
            0 <= i < pads.len() && (#[trigger] pads[i]).name@ == name && Some(pads[i].handle)
                == element.pad(name) && retires(
                given_up_operations(waiting, pads[i].message@, serving, answers),
            ),
{
    let entries = given_up_entries(pads);
    assert(has_name(entries, name));
    let i = index_of_name(entries, name);
    assert(0 <= i < entries.len() && entries[i].name@ == name);
    assert(pads[i].name@ == name);
    law_given_up_pad_is_retired_once(waiting, pads[i].message@, serving, answers);
}

/// What is sent to a pad that is dropped by its name retires it, whatever else still waits for the
/// pad.
pub proof fn law_dropped_pad_is_retired<P, T, C, S, R, E>(
    element: MoqSrcView<P, T, C, S>,
    pad_name: String,
    waiting: Seq<PadMessageView>,
    serving: bool,
    answers: spec_fn(int) -> PadAnswers,
)
    requires
        element.pad(pad_name@) is Some,
    ensures
        ({
            let action = element.action_for(ControlMessage::<R, E>::DropPad { pad_name });
            action matches ControlAction::DropPad { handle, message } && Some(handle)
                == element.pad(pad_name@) && retires(
                given_up_operations(waiting, message@, serving, answers),
            )
        }),
{
    law_given_up_pad_is_retired_once(waiting, PadMessage::Drop@, serving, answers);
}

/// A pad that was entered for a track is there until it is dropped by its name, and gone after
/// that; the pads of other tracks stay as they are.
pub proof fn law_pad_stays_until_dropped<P, T, C, S, R, E>(
    element: MoqSrcView<P, T, C, S>,
    descriptor: TrackDescriptorView,
    handle: P,
    pad_name: String,
    other: TrackDescriptorView,
)
    requires
        pad_name@ == descriptor.pad_name(),
        other != descriptor,
    ensures
        ({
            let entered = element.with_pad(descriptor, handle);
            let drop = ControlMessage::<R, E>::DropPad { pad_name };
            let dropped = entered.after_message(drop);
            &&& entered.pad(descriptor.pad_name()) == Some(handle)
            &&& entered.action_for(drop) == ControlAction::<P, R, E>::DropPad {
                handle,
                message: PadMessage::Drop,
            }
            &&& dropped.pad(descriptor.pad_name()) is None
            &&& dropped.action_for(drop) == ControlAction::<P, R, E>::Nothing
            &&& entered.pad(other.pad_name()) == element.pad(other.pad_name())
            &&& dropped.pad(other.pad_name()) == element.pad(other.pad_name())
        }),
{
    if other.pad_name() == descriptor.pad_name() {
        crate::track::law_pad_names_are_distinct(other, descriptor);
    }
}

/// The element announces a text for the URL, a text for the broadcast, and a flag, off at first,
/// for leaving certificates unverified; and nothing else.
pub proof fn law_source_announces_its_properties()
    ensures
        ({
            let properties = source_properties();
            &&& properties.len() == 3
            &&& properties[0].name == "url"@
            &&& properties[0].nick == "Source URL"@
            &&& properties[0].blurb == "Connect to the given URL"@
            &&& properties[0].kind is Text
            &&& properties[1].name == "broadcast"@
            &&& properties[1].nick == "Broadcast"@
            &&& properties[1].blurb == "The broadcast name to subscribe to"@
            &&& properties[1].kind is Text
            &&& properties[2].name == "tls-disable-verify"@
            &&& properties[2].nick == "TLS Disable Verify"@
            &&& properties[2].blurb == "Disable TLS certificate verification"@
            &&& properties[2].kind == PropertyKind::Flag { default: false }
        }),
{
}

/// The element has two templates, one for the pads of either kind of track: source pads that come
/// and go, through which anything may flow.
pub proof fn law_source_pads_come_and_go(index: int)
    requires
        0 <= index < source_templates().len(),
    ensures
        source_templates().len() == 2,
        source_templates()[0].name == "video_%u"@,
        source_templates()[1].name == "audio_%u"@,
        source_templates()[index].direction is Src,
        source_templates()[index].presence is Sometimes,
        source_templates()[index].caps is Any,
{
}

/// A request for a pad is carried out for the track, with the caps, and with the place for the
/// answer that it came with, none of them changed. So the caps that are pushed on the pad are those
/// that were asked for.
pub proof fn law_request_for_pad_is_carried_out_as_it_is<P, T, C, S, R, E>(
    element: MoqSrcView<P, T, C, S>,
    descriptor: TrackDescriptor,
    caps: Caps,
    reply: R,
)
    ensures
        ({
            let request = ControlMessage::<R, E>::CreatePad { descriptor, caps, reply };
            &&& element.after_message(request) == element
            &&& match element.action_for(request) {
                ControlAction::CreatePad { descriptor: track, caps: pad_caps, reply: answer } => {
                    let pad = pad_start::<E>(track@, pad_caps@).0;
                    &&& track == descriptor
                    &&& pad_caps == caps
                    &&& answer == reply
                    &&& pad_actions(pad, pad_steps_done::<E>(7))[3]
                        == PadSetupActionView::<E>::PushCaps(caps@)
                    &&& pad_actions(pad, pad_steps_done::<E>(7))[0]
                        == PadSetupActionView::<E>::Build(descriptor@.pad_name())
                },
                _ => false,
            }
        }),
{
    law_pad_is_ready_before_it_is_added::<E>(descriptor@, caps@);
}

/// The other control messages do what they say: the last pad is signalled, an error is posted as it
/// is, and a pad is dropped if there is one of the name. Only the last of these changes anything of
/// the element, and that only for the pad of the name.
pub proof fn law_control_messages_do_what_they_say<P, T, C, S, R, E>(
    element: MoqSrcView<P, T, C, S>,
    error: SessionError<E>,
    pad_name: String,
)
    ensures
        ({
            let last = ControlMessage::<R, E>::NoMorePads;
            &&& element.action_for(last) is SignalNoMorePads
            &&& element.after_message(last) == element
        }),
        ({
            let report = ControlMessage::<R, E>::ReportError(error);
            &&& element.action_for(report) == ControlAction::<P, R, E>::PostError(error)
            &&& element.after_message(report) == element
        }),
        ({
            let drop = ControlMessage::<R, E>::DropPad { pad_name };
            let after = element.after_message(drop);
            &&& element.pads.dom().contains(pad_name@) ==> element.action_for(drop)
                == ControlAction::<P, R, E>::DropPad {
                handle: element.pads[pad_name@],
                message: PadMessage::Drop,
            }
            &&& !element.pads.dom().contains(pad_name@) ==> element.action_for(drop) is Nothing
            &&& after.pads == element.pads.remove(pad_name@)
            &&& after.settings == element.settings
            &&& after.session == element.session
            &&& after.control_task == element.control_task
            &&& after.control_sender == element.control_sender
        }),
{
}

/// A new element has no settings, no session and no pads. Starting a session adds the session, its
/// task and its sender; stopping takes these and the pads away; and making a pad adds that pad.
/// Nothing else of the element changes.
pub proof fn law_element_has_what_it_was_given<P, T, C, S>(
    element: MoqSrcView<P, T, C, S>,
    control_task: T,
    control_sender: C,
    session: S,
    descriptor: TrackDescriptorView,
    handle: P,
    name: Seq<char>,
)
    ensures
        element.is_new() ==> {
            &&& element.settings.url is None
            &&& element.settings.broadcast is None
            &&& !element.settings.tls_disable_verify
            &&& element.pads.dom() =~= Set::<Seq<char>>::empty()
            &&& element.control_task is None
            &&& element.control_sender is None
            &&& element.session is None
        },
        ({
            let started = element.with_session(control_task, control_sender, session);
            &&& started.control_task == Some(control_task)
            &&& started.control_sender == Some(control_sender)
            &&& started.session == Some(session)
            &&& started.pads == element.pads
            &&& started.settings == element.settings
        }),
        ({
            let stopped = element.without_session();
            &&& stopped.control_task is None
            &&& stopped.control_sender is None
            &&& stopped.session is None
            &&& stopped.pads.dom() =~= Set::<Seq<char>>::empty()
            &&& stopped.settings == element.settings
        }),
        ({
            let padded = element.with_pad(descriptor, handle);
            &&& padded.pads == element.pads.insert(descriptor.pad_name(), handle)
            &&& padded.control_task == element.control_task
            &&& padded.control_sender == element.control_sender
            &&& padded.session == element.session
            &&& padded.settings == element.settings
        }),
        element.pads.dom().contains(name) ==> element.pad(name) == Some(element.pads[name]),
        !element.pads.dom().contains(name) ==> element.pad(name) is None,
{
}

/// Pads that were given up are told to go, and each is the entry of its name and handle.
pub proof fn law_given_up_pads_are_told_to_go<P>(pads: Seq<GivenUpPad<P>>, i: int)
    requires
        all_told_to_go(pads),
        0 <= i < pads.len(),
    ensures
        pads[i].message is Drop,
        given_up_entries(pads).len() == pads.len(),
        given_up_entries(pads)[i].name == pads[i].name,
        given_up_entries(pads)[i].handle == pads[i].handle,
{
}

} // verus!
