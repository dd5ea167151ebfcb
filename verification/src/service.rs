//! Serving a pad: what its messages ask for, and for how long.

use vstd::prelude::*;

use crate::forward::{forwarded, law_forwarder_keeps_order, ForwarderView};
use crate::pump::{
    law_pump_drops_pad_last, pump_sends, MediaBuffer, MediaBufferView, PadMessage, PadMessageView,
    PumpEventView, PumpView,
};
use crate::track::TrackDescriptorView;

verus! {

/// What is done with a pad.
#[derive(Debug)]
pub enum PadOperation {
    /// Push the buffer.
    Push(MediaBuffer),
    /// Push the end of the stream.
    PushEos,
    /// Deactivate the pad.
    Deactivate,
    /// Remove the pad from the element.
    Remove,
}

/// The value of a `PadOperation`.
pub enum PadOperationView {
    Push(MediaBufferView),
    PushEos,
    Deactivate,
    Remove,
}

impl View for PadOperation {
    type V = PadOperationView;

    open spec fn view(&self) -> PadOperationView {
        match *self {
            PadOperation::Push(buffer) => PadOperationView::Push(buffer@),
            PadOperation::PushEos => PadOperationView::PushEos,
            PadOperation::Deactivate => PadOperationView::Deactivate,
            PadOperation::Remove => PadOperationView::Remove,
        }
    }
}

/// What came of an operation.
#[derive(Debug, Clone, Copy, PartialEq, Eq, Structural)]
pub enum PadOutcome {
    /// A buffer was pushed, and taken or not.
    Pushed { taken: bool },
    /// The end of the stream was pushed; whether it was taken does not matter.
    EosPushed,
    /// The pad was deactivated, or could not be.
    Deactivated { done: bool },
    /// The pad was removed, or could not be.
    Removed { done: bool },
}

/// What comes after an operation.
#[derive(Debug)]
pub enum PadStep {
    /// Another operation for the same message.
    Perform(PadOperation),
    /// The next message.
    ServeOn,
    /// Nothing: the pad is served no further.
    Stop,
}

/// The value of a `PadStep`.
pub enum PadStepView {
    Perform(PadOperationView),
    ServeOn,
    Stop,
}

impl View for PadStep {
    type V = PadStepView;

    open spec fn view(&self) -> PadStepView {
        match *self {
            PadStep::Perform(operation) => PadStepView::Perform(operation@),
            PadStep::ServeOn => PadStepView::ServeOn,
            PadStep::Stop => PadStepView::Stop,
        }
    }
}

/// What a message asks for first.
pub open spec fn operation_of(message: PadMessageView) -> PadOperationView {
    match message {
        PadMessageView::Buffer(buffer) => PadOperationView::Push(buffer),
        PadMessageView::Eos => PadOperationView::PushEos,
        PadMessageView::Drop => PadOperationView::Deactivate,
    }
}

/// What comes after an operation. A pad that was to be deactivated is then to be removed, and one
/// that was to be removed is served no further, whether or not that worked.
pub open spec fn step_after(outcome: PadOutcome) -> PadStepView {
    match outcome {
        PadOutcome::Pushed { taken } => if taken {
            PadStepView::ServeOn
        } else {
            PadStepView::Stop
        },
        PadOutcome::EosPushed => PadStepView::ServeOn,
        PadOutcome::Deactivated { .. } => PadStepView::Perform(PadOperationView::Remove),
        PadOutcome::Removed { .. } => PadStepView::Stop,
    }
}

/// What a message asks for first.
pub fn dispatch_pad_message(message: PadMessage) -> (operation: PadOperation)
    ensures
        operation@ == operation_of(message@),
{
    match message {
        PadMessage::Buffer(buffer) => PadOperation::Push(buffer),
        PadMessage::Eos => PadOperation::PushEos,
        PadMessage::Drop => PadOperation::Deactivate,
    }
}

impl PadOutcome {
    /// What comes next.
    pub fn next(self) -> (step: PadStep)
        ensures
            step@ == step_after(self),
    {
        match self {
            PadOutcome::Pushed { taken } => {
                if taken {
                    PadStep::ServeOn
                } else {
                    PadStep::Stop
                }
            },
            PadOutcome::EosPushed => PadStep::ServeOn,
            PadOutcome::Deactivated { .. } => PadStep::Perform(PadOperation::Remove),
            PadOutcome::Removed { .. } => PadStep::Stop,
        }
    }
}

/// What is left to be done first about a pad that was given up, once its service has ended.
pub open spec fn given_up_remainder(removed: bool) -> Option<PadOperationView> {
    if removed {
        None
    } else {
        Some(PadOperationView::Deactivate)
    }
}

/// What is left to be done first about a pad that was given up, once its service has ended.
/// `removed` says whether its removal has been carried out by then; that of a pad whose buffer was
/// refused has not.
pub fn finish_given_up_pad(removed: bool) -> (operation: Option<PadOperation>)
    ensures
        operation is Some <==> given_up_remainder(removed) is Some,
        operation matches Some(operation) ==> Some(operation@) == given_up_remainder(removed),
{
    if removed {
        None
    } else {
        Some(PadOperation::Deactivate)
    }
}

/// How the operations for a message turn out, as far as they are performed.
pub struct PadAnswers {
    pub taken: bool,
    pub deactivated: bool,
    pub removed: bool,
}

/// What comes of an operation.
pub open spec fn outcome_of(operation: PadOperationView, answers: PadAnswers) -> PadOutcome {
    match operation {
        PadOperationView::Push(_) => PadOutcome::Pushed { taken: answers.taken },
        PadOperationView::PushEos => PadOutcome::EosPushed,
        PadOperationView::Deactivate => PadOutcome::Deactivated { done: answers.deactivated },
        PadOperationView::Remove => PadOutcome::Removed { done: answers.removed },
    }
}

/// The operations that are performed from one on, and what comes in the end.
pub open spec fn performed_from(operation: PadOperationView, answers: PadAnswers) -> (
    Seq<PadOperationView>,
    PadStepView,
)
    decreases
        (match operation {
            PadOperationView::Deactivate => 1int,
            _ => 0int,
        }),
{
    match step_after(outcome_of(operation, answers)) {
        PadStepView::Perform(next) => {
            let rest = performed_from(next, answers);
            (seq![operation] + rest.0, rest.1)
        },
        step => (seq![operation], step),
    }
}

/// The operations that are performed for a message.
pub open spec fn operations_of(message: PadMessageView, answers: PadAnswers) -> Seq<
    PadOperationView,
> {
    performed_from(operation_of(message), answers).0
}

/// Whether the pad is served on after a message.
pub open spec fn serves_on(message: PadMessageView, answers: PadAnswers) -> bool {
    performed_from(operation_of(message), answers).1 is ServeOn
}

/// What makes a pad leave the element: it is deactivated, then removed.
pub open spec fn retirement() -> Seq<PadOperationView> {
    seq![PadOperationView::Deactivate, PadOperationView::Remove]
}

/// A pad that is told to go is deactivated and then removed, even if it could not be deactivated;
/// after that it is served no further, even if it could not be removed.
pub proof fn law_dropped_pad_is_deactivated_then_removed(answers: PadAnswers)
    ensures
        operations_of(PadMessageView::Drop, answers) == retirement(),
        !serves_on(PadMessageView::Drop, answers),
{
    reveal_with_fuel(performed_from, 2);
    assert(operations_of(PadMessageView::Drop, answers) =~= retirement());
}

/// A buffer is pushed, and the pad served on if and only if it was taken. The end of the stream is
/// pushed, and the pad served on in any case.
pub proof fn law_refused_buffer_ends_service(buffer: MediaBufferView, answers: PadAnswers)
    ensures
        operations_of(PadMessageView::Buffer(buffer), answers) == seq![
            PadOperationView::Push(buffer),
        ],
        serves_on(PadMessageView::Buffer(buffer), answers) <==> answers.taken,
        operations_of(PadMessageView::Eos, answers) == seq![PadOperationView::PushEos],
        serves_on(PadMessageView::Eos, answers),
{
}

/// As long as buffers are taken, all that a pump sends is carried out, in order, the removal of
/// the pad included.
pub proof fn law_pad_is_served_to_the_end(
    descriptor: TrackDescriptorView,
    events: Seq<PumpEventView>,
    answers: PadAnswers,
)
    requires
        answers.taken,
    ensures
        ({
            let sent = pump_sends(PumpView::initial(descriptor), events);
            let more = |handled: Seq<PadMessageView>| serves_on(handled.last(), answers);
            forwarded(ForwarderView::initial(), sent, seq![], more) == sent
        }),
{
    let sent = pump_sends(PumpView::initial(descriptor), events);
    let more = |handled: Seq<PadMessageView>| serves_on(handled.last(), answers);
    let handled = forwarded(ForwarderView::initial(), sent, seq![], more);
    let count = handled.len() as int;
    law_forwarder_keeps_order(sent, more);
    law_pump_drops_pad_last(descriptor, events);
    if count < sent.len() {
        assert(!more(sent.take(count)));
        assert(sent.take(count).last() == sent[count - 1]);
        assert(sent[count - 1] is Drop);
        assert(false);
    }
    assert(sent.take(count) =~= sent);
}

/// A pad that is given up is told to go behind the messages that still wait for it. As long as
/// buffers are taken, all of them are carried out, and the last thing done is to retire the pad.
pub proof fn law_given_up_pad_is_retired(waiting: Seq<PadMessageView>, answers: PadAnswers)
    requires
        forall|i: int| 0 <= i < waiting.len() ==> !((#[trigger] waiting[i]) is Drop),
        answers.taken,
    ensures
        ({
            let sent = waiting.push(PadMessageView::Drop);
            let more = |handled: Seq<PadMessageView>| serves_on(handled.last(), answers);
            &&& forwarded(ForwarderView::initial(), sent, seq![], more) == sent
            &&& operations_of(sent.last(), answers) == retirement()
        }),
{
    let sent = waiting.push(PadMessageView::Drop);
    let more = |handled: Seq<PadMessageView>| serves_on(handled.last(), answers);
    let count = forwarded(ForwarderView::initial(), sent, seq![], more).len() as int;
    law_forwarder_keeps_order(sent, more);
    law_dropped_pad_is_deactivated_then_removed(answers);
    if count < sent.len() {
        assert(!more(sent.take(count)));
        assert(sent.take(count).last() == waiting[count - 1]);
    }
    assert(sent.take(count) =~= sent);
}

/// The messages that are carried out for a pad which is sent `message` when it is given up, while
/// `waiting` still waits for it. `serving` says whether the pad is still served, and `answers` how
/// the operations turn out for the message of that number, the first one being 1.
pub open spec fn given_up_handled(
    waiting: Seq<PadMessageView>,
    message: PadMessageView,
    serving: bool,
    answers: spec_fn(int) -> PadAnswers,
) -> Seq<PadMessageView> {
    if serving {
        forwarded(
            ForwarderView::initial(),
            waiting.push(message),
            seq![],
            |handled: Seq<PadMessageView>|
                serves_on(handled.last(), answers(handled.len() as int)),
        )
    } else {
        seq![]
    }
}

/// The operations that are performed for messages, one message after the other.
pub open spec fn all_operations_of(
    messages: Seq<PadMessageView>,
    answers: spec_fn(int) -> PadAnswers,
) -> Seq<PadOperationView>
    decreases messages.len(),
{
    if messages.len() == 0 {
        seq![]
    } else {
        all_operations_of(messages.drop_last(), answers) + operations_of(
            messages.last(),
            answers(messages.len() as int),
        )
    }
}

/// All that is done about a pad from when it is given up: the operations for the messages that are
/// carried out, and those that are left when the service has ended.
pub open spec fn given_up_operations(
    waiting: Seq<PadMessageView>,
    message: PadMessageView,
    serving: bool,
    answers: spec_fn(int) -> PadAnswers,
) -> Seq<PadOperationView> {
    let handled = given_up_handled(waiting, message, serving, answers);
    let operations = all_operations_of(handled, answers);
    match given_up_remainder(operations.len() > 0 && operations.last() is Remove) {
        Some(operation) => operations + performed_from(
            operation,
            answers(handled.len() as int + 1),
        ).0,
        None => operations,
    }
}

/// Whether a pad is retired by these operations, once and in the end.
pub open spec fn retires(operations: Seq<PadOperationView>) -> bool {
    let before = operations.len() - 2;
    &&& before >= 0
    &&& operations.skip(before) == retirement()
    &&& forall|i: int|
        0 <= i < before ==> !((#[trigger] operations[i]) is Deactivate) && !(operations[i] is Remove)
}

proof fn lemma_only_drop_retires(
    messages: Seq<PadMessageView>,
    answers: spec_fn(int) -> PadAnswers,
)
    requires
        forall|i: int| 0 <= i < messages.len() ==> !((#[trigger] messages[i]) is Drop),
    ensures
        forall|i: int|
            0 <= i < all_operations_of(messages, answers).len() ==> !((
            #[trigger] all_operations_of(messages, answers)[i]) is Deactivate) && !(
            all_operations_of(messages, answers)[i] is Remove),
    decreases messages.len(),
{
    if messages.len() > 0 {
        lemma_only_drop_retires(messages.drop_last(), answers);
        assert(!(messages[messages.len() - 1] is Drop));
    }
}

/// A pad that is told to go while it is on the element is retired: once, and as the last thing
/// that is done about it. This holds whatever still waits for the pad, however the operations turn
/// out, and even if the pad is no longer served.
pub proof fn law_given_up_pad_is_retired_once(
    waiting: Seq<PadMessageView>,
    message: PadMessageView,
    serving: bool,
    answers: spec_fn(int) -> PadAnswers,
)
    requires
        message is Drop,
    ensures
        retires(given_up_operations(waiting, message, serving, answers)),
{
    let handled = given_up_handled(waiting, message, serving, answers);
    let count = handled.len() as int;
    let operations = all_operations_of(handled, answers);
    let all = given_up_operations(waiting, message, serving, answers);
    if serving {
        let sent = waiting.push(message);
        let more = |handled: Seq<PadMessageView>|
            serves_on(handled.last(), answers(handled.len() as int));
        law_forwarder_keeps_order(sent, more);
        assert forall|i: int| 0 <= i < count - 1 implies !((#[trigger] handled[i]) is Drop) by {
            assert(more(sent.take(i + 1)));
            assert(sent.take(i + 1).last() == handled[i]);
            law_dropped_pad_is_deactivated_then_removed(answers(i + 1));
        }
    }
    if count > 0 && handled.last() is Drop {
        law_dropped_pad_is_deactivated_then_removed(answers(count));
        lemma_only_drop_retires(handled.drop_last(), answers);
        let before = all_operations_of(handled.drop_last(), answers);
        assert(operations == before + retirement());
        assert(operations.last() is Remove);
        assert(all.skip(all.len() - 2) =~= retirement());
        assert forall|i: int| 0 <= i < all.len() - 2 implies !((#[trigger] all[i]) is Deactivate)
            && !(all[i] is Remove) by {
            assert(all[i] == before[i]);
        }
    } else {
        assert forall|i: int| 0 <= i < count implies !((#[trigger] handled[i]) is Drop) by {
            if i == count - 1 {
                assert(handled[i] == handled.last());
            }
        }
        lemma_only_drop_retires(handled, answers);
        if operations.len() > 0 {
            assert(!(operations[operations.len() - 1] is Remove));
        }
        law_dropped_pad_is_deactivated_then_removed(answers(count + 1));
        assert(all =~= operations + retirement());
        assert(all.skip(all.len() - 2) =~= retirement());
        assert forall|i: int| 0 <= i < all.len() - 2 implies !((#[trigger] all[i]) is Deactivate)
            && !(all[i] is Remove) by {
            assert(all[i] == operations[i]);
        }
    }
}

/// Each message asks for what it is named after, with the buffer that it holds. A pad is served on
/// after a buffer if and only if that was taken, and always after the end of the stream; one that
/// was deactivated, or could not be, is removed next; and one that was removed, or could not be, is
/// served no further.
pub proof fn law_messages_lead_to_their_operations(buffer: MediaBufferView, worked: bool)
    ensures
        operation_of(PadMessageView::Buffer(buffer)) == PadOperationView::Push(buffer),
        operation_of(PadMessageView::Eos) is PushEos,
        operation_of(PadMessageView::Drop) is Deactivate,
        step_after(PadOutcome::Pushed { taken: true }) is ServeOn,
        step_after(PadOutcome::Pushed { taken: false }) is Stop,
        step_after(PadOutcome::EosPushed) is ServeOn,
        step_after(PadOutcome::Deactivated { done: worked }) == PadStepView::Perform(
            PadOperationView::Remove,
        ),
        step_after(PadOutcome::Removed { done: worked }) is Stop,
        given_up_remainder(true) is None,
        given_up_remainder(false) == Some(PadOperationView::Deactivate),
{
}

/// The values of operations and steps have what these hold.
pub proof fn law_service_values_have_every_part(operation: PadOperation, step: PadStep)
    ensures
        match operation {
            PadOperation::Push(buffer) => operation@ == PadOperationView::Push(buffer@),
            PadOperation::PushEos => operation@ is PushEos,
            PadOperation::Deactivate => operation@ is Deactivate,
            PadOperation::Remove => operation@ is Remove,
        },
        match step {
            PadStep::Perform(next) => step@ == PadStepView::Perform(next@),
            PadStep::ServeOn => step@ is ServeOn,
            PadStep::Stop => step@ is Stop,
        },
{
}

} // verus!
