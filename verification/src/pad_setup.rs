//! Making a pad for a track.

use vstd::prelude::*;

use crate::caps::{Caps, CapsView};
use crate::track::{template_name_of, TrackDescriptor, TrackDescriptorView};

verus! {

/// What came of the action that was last asked for. `E` is what the framework reports.
#[derive(Debug)]
pub enum PadSetupEvent<E> {
    /// It was done. Whether anyone has taken an event that was pushed does not matter.
    Done,
    /// There is no template of the name.
    TemplateMissing,
    /// The pad could not be activated or added.
    Failed(E),
}

/// Why a pad was not made.
#[derive(Debug)]
pub enum CreatePadError<E> {
    /// The element has no template for tracks of the kind.
    MissingTemplate,
    /// The pad could not be activated or added.
    Pad(E),
}

impl<E> CreatePadError<E> {
    /// The message that reports the error, unless the framework has its own.
    pub fn message(&self) -> (message: Option<String>)
        ensures
            match *self {
                CreatePadError::MissingTemplate => message is Some && message->0@
                    == "missing pad template"@,
                CreatePadError::Pad(_) => message is None,
            },
    {
        match self {
            CreatePadError::MissingTemplate => Some("missing pad template".to_string()),
            CreatePadError::Pad(_) => None,
        }
    }
}

/// What has to be done next for a pad.
#[derive(Debug)]
pub enum PadSetupAction<E> {
    /// Look up the template of that name.
    FindTemplate(&'static str),
    /// Build a pad of that name from the template.
    Build(String),
    /// Activate the pad.
    Activate,
    /// Push the start of a stream of that name, in a group of its own.
    PushStreamStart(String),
    /// Push the caps.
    PushCaps(Caps),
    /// Push a segment that covers all of time.
    PushSegment,
    /// Add the pad to the element.
    AddPad,
    /// The pad is there: serve it, enter it for the track, and answer the request.
    Serve(TrackDescriptor),
    /// The pad was not made; the request goes without an answer.
    Fail(CreatePadError<E>),
    /// The event answers nothing that was asked: carry on with what was asked last.
    Carry,
}

/// The value of a `PadSetupAction`.
pub enum PadSetupActionView<E> {
    FindTemplate(Seq<char>),
    Build(Seq<char>),
    Activate,
    PushStreamStart(Seq<char>),
    PushCaps(CapsView),
    PushSegment,
    AddPad,
    Serve(TrackDescriptorView),
    Fail(CreatePadError<E>),
    Carry,
}

impl<E> View for PadSetupAction<E> {
    type V = PadSetupActionView<E>;

    open spec fn view(&self) -> PadSetupActionView<E> {
        match *self {
            PadSetupAction::FindTemplate(name) => PadSetupActionView::FindTemplate(name@),
            PadSetupAction::Build(name) => PadSetupActionView::Build(name@),
            PadSetupAction::Activate => PadSetupActionView::Activate,
            PadSetupAction::PushStreamStart(name) => PadSetupActionView::PushStreamStart(name@),
            PadSetupAction::PushCaps(caps) => PadSetupActionView::PushCaps(caps@),
            PadSetupAction::PushSegment => PadSetupActionView::PushSegment,
            PadSetupAction::AddPad => PadSetupActionView::AddPad,
            PadSetupAction::Serve(descriptor) => PadSetupActionView::Serve(descriptor@),
            PadSetupAction::Fail(error) => PadSetupActionView::Fail(error),
            PadSetupAction::Carry => PadSetupActionView::Carry,
        }
    }
}

/// What a pad waits for.
enum PadStage {
    Template { descriptor: TrackDescriptor, caps: Caps },
    Building { descriptor: TrackDescriptor, caps: Caps },
    Activation { descriptor: TrackDescriptor, caps: Caps },
    StreamStart { descriptor: TrackDescriptor, caps: Caps },
    CapsEvent { descriptor: TrackDescriptor },
    Segment { descriptor: TrackDescriptor },
    Addition { descriptor: TrackDescriptor },
    Over,
}

/// What a pad waits for, and what is needed for the rest of its way.
pub enum PadStageView {
    /// The template is being looked up.
    Template { descriptor: TrackDescriptorView, caps: CapsView },
    /// The pad is being built.
    Building { descriptor: TrackDescriptorView, caps: CapsView },
    /// The pad is being activated.
    Activation { descriptor: TrackDescriptorView, caps: CapsView },
    /// The start of the stream is being pushed.
    StreamStart { descriptor: TrackDescriptorView, caps: CapsView },
    /// The caps are being pushed.
    CapsEvent { descriptor: TrackDescriptorView },
    /// The segment is being pushed.
    Segment { descriptor: TrackDescriptorView },
    /// The pad is being added.
    Addition { descriptor: TrackDescriptorView },
    /// The pad is there, or was not made.
    Over,
}

impl PadStage {
    spec fn view(self) -> PadStageView {
        match self {
            PadStage::Template { descriptor, caps } => PadStageView::Template {
                descriptor: descriptor@,
                caps: caps@,
            },
            PadStage::Building { descriptor, caps } => PadStageView::Building {
                descriptor: descriptor@,
                caps: caps@,
            },
            PadStage::Activation { descriptor, caps } => PadStageView::Activation {
                descriptor: descriptor@,
                caps: caps@,
            },
            PadStage::StreamStart { descriptor, caps } => PadStageView::StreamStart {
                descriptor: descriptor@,
                caps: caps@,
            },
            PadStage::CapsEvent { descriptor } => PadStageView::CapsEvent {
                descriptor: descriptor@,
            },
            PadStage::Segment { descriptor } => PadStageView::Segment { descriptor: descriptor@ },
            PadStage::Addition { descriptor } => PadStageView::Addition {
                descriptor: descriptor@,
            },
            PadStage::Over => PadStageView::Over,
        }
    }
}

/// A pad in the making.
pub struct PadSetup {
    stage: PadStage,
}

impl View for PadSetup {
    type V = PadStageView;

    closed spec fn view(&self) -> PadStageView {
        self.stage.view()
    }
}

/// The start of a pad.
pub open spec fn pad_start<E>(descriptor: TrackDescriptorView, caps: CapsView) -> (
    PadStageView,
    PadSetupActionView<E>,
) {
    (
        PadStageView::Template { descriptor, caps },
        PadSetupActionView::FindTemplate(template_name_of(descriptor.kind)),
    )
}

/// What is done about a pad on an event.
pub open spec fn pad_next<E>(stage: PadStageView, event: PadSetupEvent<E>) -> (
    PadStageView,
    PadSetupActionView<E>,
) {
    match (stage, event) {
        (PadStageView::Template { descriptor, caps }, PadSetupEvent::Done) => (
            PadStageView::Building { descriptor, caps },
            PadSetupActionView::Build(descriptor.pad_name()),
        ),
        (PadStageView::Template { .. }, PadSetupEvent::TemplateMissing) => (
            PadStageView::Over,
            PadSetupActionView::Fail(CreatePadError::MissingTemplate),
        ),
        (PadStageView::Building { descriptor, caps }, PadSetupEvent::Done) => (
            PadStageView::Activation { descriptor, caps },
            PadSetupActionView::Activate,
        ),
        (PadStageView::Activation { descriptor, caps }, PadSetupEvent::Done) => (
            PadStageView::StreamStart { descriptor, caps },
            PadSetupActionView::PushStreamStart(descriptor.name),
        ),
        (PadStageView::StreamStart { descriptor, caps }, PadSetupEvent::Done) => (
            PadStageView::CapsEvent { descriptor },
            PadSetupActionView::PushCaps(caps),
        ),
        (PadStageView::CapsEvent { descriptor }, PadSetupEvent::Done) => (
            PadStageView::Segment { descriptor },
            PadSetupActionView::PushSegment,
        ),
        (PadStageView::Segment { descriptor }, PadSetupEvent::Done) => (
            PadStageView::Addition { descriptor },
            PadSetupActionView::AddPad,
        ),
        (PadStageView::Addition { descriptor }, PadSetupEvent::Done) => (
            PadStageView::Over,
            PadSetupActionView::Serve(descriptor),
        ),
        (
            PadStageView::Activation { .. } | PadStageView::Addition { .. },
            PadSetupEvent::Failed(error),
        ) => (PadStageView::Over, PadSetupActionView::Fail(CreatePadError::Pad(error))),
        _ => (stage, PadSetupActionView::Carry),
    }
}

impl PadSetup {
    /// A pad for a track with these caps, and the first thing to be done about it.
    pub fn start<E>(descriptor: TrackDescriptor, caps: Caps) -> (started: (
        PadSetup,
        PadSetupAction<E>,
    ))
        ensures
            (started.0@, started.1@) == pad_start::<E>(descriptor@, caps@),
    {
        let template = descriptor.kind.template_name();
        let stage = PadStage::Template { descriptor, caps };
        (PadSetup { stage }, PadSetupAction::FindTemplate(template))
    }

    /// Handles an event: the pad from then on, and what has to be done about it next.
    pub fn step<E>(self, event: PadSetupEvent<E>) -> (next: (PadSetup, PadSetupAction<E>))
        ensures
            (next.0@, next.1@) == pad_next(self@, event),
    {
        match (self.stage, event) {
            (PadStage::Template { descriptor, caps }, PadSetupEvent::Done) => {
                let name = descriptor.pad_name();
                let stage = PadStage::Building { descriptor, caps };
                (PadSetup { stage }, PadSetupAction::Build(name))
            },
            (PadStage::Template { .. }, PadSetupEvent::TemplateMissing) => {
                let error = CreatePadError::MissingTemplate;
                (PadSetup { stage: PadStage::Over }, PadSetupAction::Fail(error))
            },
            (PadStage::Building { descriptor, caps }, PadSetupEvent::Done) => {
                let stage = PadStage::Activation { descriptor, caps };
                (PadSetup { stage }, PadSetupAction::Activate)
            },
            (PadStage::Activation { descriptor, caps }, PadSetupEvent::Done) => {
                let name = descriptor.name.clone();
                let stage = PadStage::StreamStart { descriptor, caps };
                (PadSetup { stage }, PadSetupAction::PushStreamStart(name))
            },
            (PadStage::StreamStart { descriptor, caps }, PadSetupEvent::Done) => {
                let stage = PadStage::CapsEvent { descriptor };
                (PadSetup { stage }, PadSetupAction::PushCaps(caps))
            },
            (PadStage::CapsEvent { descriptor }, PadSetupEvent::Done) => {
                let stage = PadStage::Segment { descriptor };
                (PadSetup { stage }, PadSetupAction::PushSegment)
            },
            (PadStage::Segment { descriptor }, PadSetupEvent::Done) => {
                let stage = PadStage::Addition { descriptor };
                (PadSetup { stage }, PadSetupAction::AddPad)
            },
            (PadStage::Addition { descriptor }, PadSetupEvent::Done) => {
                (PadSetup { stage: PadStage::Over }, PadSetupAction::Serve(descriptor))
            },
            (
                PadStage::Activation { .. } | PadStage::Addition { .. },
                PadSetupEvent::Failed(error),
            ) => {
                let error = CreatePadError::Pad(error);
                (PadSetup { stage: PadStage::Over }, PadSetupAction::Fail(error))
            },
            (stage, _) => (PadSetup { stage }, PadSetupAction::Carry),
        }
    }
}

/// A pad after a run of events.
pub open spec fn pad_after<E>(stage: PadStageView, events: Seq<PadSetupEvent<E>>) -> PadStageView
    decreases events.len(),
{
    if events.len() == 0 {
        stage
    } else {
        pad_next(pad_after(stage, events.drop_last()), events.last()).0
    }
}

/// What had to be done about a pad on a run of events, one action for each of them.
pub open spec fn pad_actions<E>(
    stage: PadStageView,
    events: Seq<PadSetupEvent<E>>,
) -> Seq<PadSetupActionView<E>>
    decreases events.len(),
{
    if events.len() == 0 {
        seq![]
    } else {
        pad_actions(stage, events.drop_last()).push(
            pad_next(pad_after(stage, events.drop_last()), events.last()).1,
        )
    }
}

/// That many actions done.
pub open spec fn pad_steps_done<E>(count: int) -> Seq<PadSetupEvent<E>> {
    Seq::new(count as nat, |i: int| PadSetupEvent::Done)
}

/// A pad for which everything is done that has to be is built under the track's pad name and
/// activated; gets the start of the stream, the caps and the segment, in this order; and only
/// then is added to the element and served.
pub proof fn law_pad_is_ready_before_it_is_added<E>(
    descriptor: TrackDescriptorView,
    caps: CapsView,
)
    ensures
        ({
            let start = pad_start::<E>(descriptor, caps).0;
            let events = pad_steps_done::<E>(7);
            &&& pad_after(start, events) is Over
            &&& pad_actions(start, events) == seq![
                PadSetupActionView::<E>::Build(descriptor.pad_name()),
                PadSetupActionView::Activate,
                PadSetupActionView::PushStreamStart(descriptor.name),
                PadSetupActionView::PushCaps(caps),
                PadSetupActionView::PushSegment,
                PadSetupActionView::AddPad,
                PadSetupActionView::Serve(descriptor),
            ]
        }),
{
    let start = pad_start::<E>(descriptor, caps).0;
    assert(pad_steps_done::<E>(7).drop_last() =~= pad_steps_done::<E>(6));
    assert(pad_steps_done::<E>(6).drop_last() =~= pad_steps_done::<E>(5));
    assert(pad_steps_done::<E>(5).drop_last() =~= pad_steps_done::<E>(4));
    assert(pad_steps_done::<E>(4).drop_last() =~= pad_steps_done::<E>(3));
    assert(pad_steps_done::<E>(3).drop_last() =~= pad_steps_done::<E>(2));
    assert(pad_steps_done::<E>(2).drop_last() =~= pad_steps_done::<E>(1));
    assert(pad_steps_done::<E>(1).drop_last() =~= pad_steps_done::<E>(0));
    reveal_with_fuel(pad_after, 8);
    reveal_with_fuel(pad_actions, 8);
    assert(pad_actions(start, pad_steps_done::<E>(7)) =~= seq![
        PadSetupActionView::<E>::Build(descriptor.pad_name()),
        PadSetupActionView::Activate,
        PadSetupActionView::PushStreamStart(descriptor.name),
        PadSetupActionView::PushCaps(caps),
        PadSetupActionView::PushSegment,
        PadSetupActionView::AddPad,
        PadSetupActionView::Serve(descriptor),
    ]);
}

/// Whatever happens, a pad is either served or given up, once, and after that nothing more is
/// done about it.
pub proof fn law_pad_is_settled_once<E>(stage: PadStageView, events: Seq<PadSetupEvent<E>>)
    ensures
        pad_actions(stage, events).len() == events.len(),
        forall|i: int|
            0 <= i < events.len() && (#[trigger] pad_actions(stage, events)[i] is Serve
                || pad_actions(stage, events)[i] is Fail) ==> pad_after(stage, events) is Over,
        forall|i: int, j: int|
            0 <= i < j < events.len() && (#[trigger] pad_actions(stage, events)[i] is Serve
                || pad_actions(stage, events)[i] is Fail) ==> #[trigger] pad_actions(
                stage,
                events,
            )[j] is Carry,
    decreases events.len(),
{
    if events.len() > 0 {
        let earlier = events.drop_last();
        law_pad_is_settled_once(stage, earlier);
        let before = pad_actions(stage, earlier);
        let actions = pad_actions(stage, events);
        let last = events.len() - 1;
        assert(forall|i: int| 0 <= i < last ==> actions[i] == before[i]);
        assert forall|i: int|
            0 <= i < events.len() && (#[trigger] actions[i] is Serve || actions[i] is Fail) implies pad_after(
            stage,
            events,
        ) is Over by {
            if i < last {
                assert(before[i] is Serve || before[i] is Fail);
            }
        }
        assert forall|i: int, j: int|
            0 <= i < j < events.len() && (#[trigger] actions[i] is Serve || actions[i] is Fail) implies #[trigger] actions[j] is Carry by {
            assert(before[i] is Serve || before[i] is Fail);
            if j < last {
                assert(before[j] is Carry);
            }
        }
    }
}

/// The first thing done about a pad is to look up the template for tracks of its kind.
pub proof fn law_pad_comes_from_the_template_of_its_kind<E>(
    descriptor: TrackDescriptorView,
    caps: CapsView,
)
    ensures
        descriptor.kind is Video ==> pad_start::<E>(descriptor, caps).1
            == PadSetupActionView::<E>::FindTemplate("video_%u"@),
        descriptor.kind is Audio ==> pad_start::<E>(descriptor, caps).1
            == PadSetupActionView::<E>::FindTemplate("audio_%u"@),
{
}

/// A pad is given up if its template is missing, or if it cannot be activated or added; and then
/// for that reason. Where nothing of the kind can happen, a report of it changes nothing.
pub proof fn law_pad_is_given_up_for_the_reason<E>(
    descriptor: TrackDescriptorView,
    caps: CapsView,
    error: E,
)
    ensures
        ({
            let failed = PadSetupEvent::Failed(error);
            let missing = PadSetupEvent::<E>::TemplateMissing;
            let no_template = PadSetupActionView::Fail(CreatePadError::<E>::MissingTemplate);
            let no_pad = PadSetupActionView::Fail(CreatePadError::Pad(error));
            let looked_up = pad_start::<E>(descriptor, caps).0;
            let built = pad_next(looked_up, PadSetupEvent::<E>::Done).0;
            let active = pad_next(built, PadSetupEvent::<E>::Done).0;
            let started = pad_next(active, PadSetupEvent::<E>::Done).0;
            let capped = pad_next(started, PadSetupEvent::<E>::Done).0;
            let segmented = pad_next(capped, PadSetupEvent::<E>::Done).0;
            let added = pad_next(segmented, PadSetupEvent::<E>::Done).0;
            &&& pad_next(looked_up, missing) == (PadStageView::Over, no_template)
            &&& pad_next(active, failed) == (PadStageView::Over, no_pad)
            &&& pad_next(added, failed) == (PadStageView::Over, no_pad)
            &&& pad_next(looked_up, failed) == (looked_up, PadSetupActionView::<E>::Carry)
            &&& pad_next(built, failed) == (built, PadSetupActionView::<E>::Carry)
            &&& pad_next(started, failed) == (started, PadSetupActionView::<E>::Carry)
            &&& pad_next(capped, failed) == (capped, PadSetupActionView::<E>::Carry)
            &&& pad_next(segmented, failed) == (segmented, PadSetupActionView::<E>::Carry)
            &&& pad_next(built, missing) == (built, PadSetupActionView::<E>::Carry)
            &&& pad_next(active, missing) == (active, PadSetupActionView::<E>::Carry)
            &&& pad_next(started, missing) == (started, PadSetupActionView::<E>::Carry)
            &&& pad_next(capped, missing) == (capped, PadSetupActionView::<E>::Carry)
            &&& pad_next(segmented, missing) == (segmented, PadSetupActionView::<E>::Carry)
            &&& pad_next(added, missing) == (added, PadSetupActionView::<E>::Carry)
        }),
{
}

/// The values of actions have what these hold.
pub proof fn law_pad_setup_values_have_every_part<E>(action: PadSetupAction<E>)
    ensures
        match action {
            PadSetupAction::FindTemplate(name) => action@ == PadSetupActionView::<E>::FindTemplate(
                name@,
            ),
            PadSetupAction::Build(name) => action@ == PadSetupActionView::<E>::Build(name@),
            PadSetupAction::Activate => action@ is Activate,
            PadSetupAction::PushStreamStart(name) => action@
                == PadSetupActionView::<E>::PushStreamStart(name@),
            PadSetupAction::PushCaps(caps) => action@ == PadSetupActionView::<E>::PushCaps(caps@),
            PadSetupAction::PushSegment => action@ is PushSegment,
            PadSetupAction::AddPad => action@ is AddPad,
            PadSetupAction::Serve(descriptor) => action@ == PadSetupActionView::<E>::Serve(
                descriptor@,
            ),
            PadSetupAction::Fail(error) => action@ == PadSetupActionView::Fail(error),
            PadSetupAction::Carry => action@ is Carry,
        },
{
}

} // verus!
