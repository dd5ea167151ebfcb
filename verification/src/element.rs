//! How elements present themselves, and how they change state.

use vstd::prelude::*;

use crate::caps::{Caps, CapsView};

verus! {

/// What an element says of itself.
#[derive(Debug, Clone, Copy)]
pub struct ElementMetadata {
    pub long_name: &'static str,
    pub classification: &'static str,
    pub description: &'static str,
    pub author: &'static str,
}

/// The value of an `ElementMetadata`.
pub struct ElementMetadataView {
    pub long_name: Seq<char>,
    pub classification: Seq<char>,
    pub description: Seq<char>,
    pub author: Seq<char>,
}

impl View for ElementMetadata {
    type V = ElementMetadataView;

    open spec fn view(&self) -> ElementMetadataView {
        ElementMetadataView {
            long_name: self.long_name@,
            classification: self.classification@,
            description: self.description@,
            author: self.author@,
        }
    }
}

/// Which way data flows through a pad.
#[derive(Debug, Clone, Copy, PartialEq, Eq, Structural)]
pub enum PadDirection {
    Src,
    Sink,
}

/// When an element has a pad.
#[derive(Debug, Clone, Copy, PartialEq, Eq, Structural)]
pub enum PadPresence {
    Always,
    Sometimes,
}

/// What pads an element can have.
#[derive(Debug)]
pub struct PadTemplate {
    pub name: &'static str,
    pub direction: PadDirection,
    pub presence: PadPresence,
    pub caps: Caps,
}

/// The value of a `PadTemplate`.
pub struct PadTemplateView {
    pub name: Seq<char>,
    pub direction: PadDirection,
    pub presence: PadPresence,
    pub caps: CapsView,
}

impl View for PadTemplate {
    type V = PadTemplateView;

    open spec fn view(&self) -> PadTemplateView {
        PadTemplateView {
            name: self.name@,
            direction: self.direction,
            presence: self.presence,
            caps: self.caps@,
        }
    }
}

/// The values of pad templates.
pub open spec fn templates_view(templates: Seq<PadTemplate>) -> Seq<PadTemplateView> {
    Seq::new(templates.len(), |i: int| templates[i]@)
}

/// A change of state that an element is asked for.
#[derive(Debug, Clone, Copy, PartialEq, Eq, Structural)]
pub enum StateChange {
    ReadyToPaused,
    PausedToReady,
    /// Any other change.
    Other,
}

/// A change of state that was made.
#[derive(Debug, Clone, Copy, PartialEq, Eq, Structural)]
pub enum StateChangeSuccess {
    Success,
    Async,
    NoPreroll,
}

/// A change of state that was not made.
#[derive(Debug, Clone, Copy, PartialEq, Eq, Structural)]
pub struct StateChangeError;

/// What has to be done for a change of state.
#[derive(Debug, Clone, Copy, PartialEq, Eq)]
pub enum StateChangeStep {
    /// Start the session, and say whether that worked.
    StartSession,
    /// Stop the session.
    StopSession,
    /// Leave the rest of the change to the parent class, and say what came of it.
    CallParent,
    /// The change is over.
    Return(Result<StateChangeSuccess, StateChangeError>),
}

/// What came of a step.
#[derive(Debug, Clone, Copy, PartialEq, Eq)]
pub enum StateChangeEvent {
    /// The session was started, or could not be.
    SessionStarted(bool),
    /// The session was stopped.
    SessionStopped,
    /// What came of the change in the parent class.
    Parent(Result<StateChangeSuccess, StateChangeError>),
}

/// What has to be done first.
pub open spec fn change_begins_with(transition: StateChange) -> StateChangeStep {
    match transition {
        StateChange::ReadyToPaused => StateChangeStep::StartSession,
        StateChange::PausedToReady => StateChangeStep::StopSession,
        StateChange::Other => StateChangeStep::CallParent,
    }
}

/// What comes of a change, given what comes of it in the parent class. A source that is live
/// has nothing to show before it plays.
pub open spec fn change_returns(
    transition: StateChange,
    parent: Result<StateChangeSuccess, StateChangeError>,
) -> Result<StateChangeSuccess, StateChangeError> {
    match (transition, parent) {
        (StateChange::ReadyToPaused, Ok(StateChangeSuccess::Async)) => Ok(
            StateChangeSuccess::Async,
        ),
        (StateChange::ReadyToPaused, Ok(_)) => Ok(StateChangeSuccess::NoPreroll),
        _ => parent,
    }
}

/// What has to be done after a step.
pub open spec fn change_goes_on_with(
    transition: StateChange,
    event: StateChangeEvent,
) -> StateChangeStep {
    match event {
        StateChangeEvent::SessionStarted(started) => if started {
            StateChangeStep::CallParent
        } else {
            StateChangeStep::Return(Err(StateChangeError))
        },
        StateChangeEvent::SessionStopped => StateChangeStep::CallParent,
        StateChangeEvent::Parent(parent) => StateChangeStep::Return(
            change_returns(transition, parent),
        ),
    }
}

impl StateChange {
    /// What has to be done first.
    pub fn begin(self) -> (step: StateChangeStep)
        ensures
            step == change_begins_with(self),
    {
        match self {
            StateChange::ReadyToPaused => StateChangeStep::StartSession,
            StateChange::PausedToReady => StateChangeStep::StopSession,
            StateChange::Other => StateChangeStep::CallParent,
        }
    }

    /// What has to be done after a step.
    pub fn go_on(self, event: StateChangeEvent) -> (step: StateChangeStep)
        ensures
            step == change_goes_on_with(self, event),
    {
        match event {
            StateChangeEvent::SessionStarted(started) => {
                if started {
                    StateChangeStep::CallParent
                } else {
                    StateChangeStep::Return(Err(StateChangeError))
                }
            },
            StateChangeEvent::SessionStopped => StateChangeStep::CallParent,
            StateChangeEvent::Parent(parent) => match (self, parent) {
                (StateChange::ReadyToPaused, Ok(StateChangeSuccess::Async)) => {
                    StateChangeStep::Return(Ok(StateChangeSuccess::Async))
                },
                (StateChange::ReadyToPaused, Ok(_)) => {
                    StateChangeStep::Return(Ok(StateChangeSuccess::NoPreroll))
                },
                _ => StateChangeStep::Return(parent),
            },
        }
    }
}

/// An element that was paused from ready either is still on its way or has no preroll; it never
/// claims to have prerolled. Other than that, what comes of a change is for the parent class to
/// say.
pub proof fn law_live_source_has_no_preroll(
    transition: StateChange,
    parent: Result<StateChangeSuccess, StateChangeError>,
)
    ensures
        change_returns(transition, parent) is Ok <==> parent is Ok,
        transition is ReadyToPaused ==> change_returns(transition, parent) != Ok::<
            StateChangeSuccess,
            StateChangeError,
        >(StateChangeSuccess::Success),
        !(transition is ReadyToPaused) ==> change_returns(transition, parent) == parent,
{
}

/// A source that was paused from ready says so as the parent class does if that is still on its
/// way, and says that it has no preroll if the parent class is done; whatever fails in the parent
/// class fails.
pub proof fn law_paused_source_prerolls_only_later(success: StateChangeSuccess)
    ensures
        change_returns(StateChange::ReadyToPaused, Ok(StateChangeSuccess::Async)) == Ok::<
            StateChangeSuccess,
            StateChangeError,
        >(StateChangeSuccess::Async),
        !(success is Async) ==> change_returns(StateChange::ReadyToPaused, Ok(success)) == Ok::<
            StateChangeSuccess,
            StateChangeError,
        >(StateChangeSuccess::NoPreroll),
        change_returns(StateChange::ReadyToPaused, Err(StateChangeError)) is Err,
{
}

/// A session is started before the parent class pauses, and stopped before the parent class gets
/// ready; every other change is left to the parent class at once. If the session cannot be started
/// the change fails, without the parent class. And the change is over when the parent class is
/// done.
pub proof fn law_session_follows_the_state(
    transition: StateChange,
    parent: Result<StateChangeSuccess, StateChangeError>,
)
    ensures
        change_begins_with(transition) is StartSession <==> transition is ReadyToPaused,
        change_begins_with(transition) is StopSession <==> transition is PausedToReady,
        change_begins_with(transition) is CallParent <==> transition is Other,
        change_goes_on_with(transition, StateChangeEvent::SessionStarted(true)) is CallParent,
        change_goes_on_with(transition, StateChangeEvent::SessionStarted(false))
            == StateChangeStep::Return(Err(StateChangeError)),
        change_goes_on_with(transition, StateChangeEvent::SessionStopped) is CallParent,
        match change_goes_on_with(transition, StateChangeEvent::Parent(parent)) {
            StateChangeStep::Return(result) => {
                &&& result is Ok <==> parent is Ok
                &&& !(transition is ReadyToPaused) ==> result == parent
                &&& transition is ReadyToPaused && parent is Ok ==> result->Ok_0 == (
                if parent->Ok_0 is Async {
                    StateChangeSuccess::Async
                } else {
                    StateChangeSuccess::NoPreroll
                })
            },
            _ => false,
        },
{
}

/// The values of metadata and templates have what these hold, in its own place.
pub proof fn law_element_values_have_every_part(
    metadata: ElementMetadata,
    templates: Seq<PadTemplate>,
)
    ensures
        metadata@.long_name == metadata.long_name@,
        metadata@.classification == metadata.classification@,
        metadata@.description == metadata.description@,
        metadata@.author == metadata.author@,
        templates_view(templates).len() == templates.len(),
        forall|i: int|
            0 <= i < templates.len() ==> ({
                let value = #[trigger] templates_view(templates)[i];
                &&& value.name == templates[i].name@
                &&& value.direction == templates[i].direction
                &&& value.presence == templates[i].presence
                &&& value.caps == templates[i].caps@
            }),
{
}

} // verus!
