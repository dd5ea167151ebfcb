//! Handing the messages of a channel to a handler, one after the other.

use vstd::prelude::*;

verus! {

/// What happens to a forwarder.
#[derive(Debug)]
pub enum ForwardEvent<T> {
    /// A message came out of the channel.
    Received(T),
    /// The channel is closed and empty.
    Closed,
    /// The handler is done with a message, and says whether it wants more.
    Handled(bool),
}

/// What a forwarder wants done.
#[derive(Debug)]
pub enum ForwardAction<T> {
    /// Wait for the next message.
    Receive,
    /// Hand the message to the handler.
    Handle(T),
    /// Leave the channel.
    Stop,
}

/// Forwards messages until the channel is closed or the handler has had enough.
#[derive(Debug)]
pub struct Forwarder {
    running: bool,
}

/// The value of a `Forwarder`.
pub struct ForwarderView {
    pub running: bool,
}

impl View for Forwarder {
    type V = ForwarderView;

    closed spec fn view(&self) -> ForwarderView {
        ForwarderView { running: self.running }
    }
}

impl ForwarderView {
    /// A forwarder that has forwarded nothing yet.
    pub open spec fn initial() -> ForwarderView {
        ForwarderView { running: true }
    }

    /// What is to be done after an event.
    pub open spec fn action<T>(self, event: ForwardEvent<T>) -> ForwardAction<T> {
        if !self.running {
            ForwardAction::Stop
        } else {
            match event {
                ForwardEvent::Received(message) => ForwardAction::Handle(message),
                ForwardEvent::Closed => ForwardAction::Stop,
                ForwardEvent::Handled(more) => if more {
                    ForwardAction::Receive
                } else {
                    ForwardAction::Stop
                },
            }
        }
    }

    /// The forwarder after an event: it has stopped for good once it has asked to stop.
    pub open spec fn after<T>(self, event: ForwardEvent<T>) -> ForwarderView {
        ForwarderView { running: !(self.action(event) is Stop) }
    }
}

impl Forwarder {
    /// A forwarder, which first waits for a message.
    pub fn new() -> (forwarder: Forwarder)
        ensures
            forwarder@ == ForwarderView::initial(),
    {
        Forwarder { running: true }
    }

    /// Whether messages are still forwarded.
    pub fn is_running(&self) -> (running: bool)
        ensures
            running == self@.running,
    {
        self.running
    }

    /// Handles an event.
    pub fn step<T>(&mut self, event: ForwardEvent<T>) -> (action: ForwardAction<T>)
        ensures
            action == old(self)@.action(event),
            final(self)@ == old(self)@.after(event),
    {
        if !self.running {
            return ForwardAction::Stop;
        }
        match event {
            ForwardEvent::Received(message) => ForwardAction::Handle(message),
            ForwardEvent::Closed => {
                self.running = false;
                ForwardAction::Stop
            },
            ForwardEvent::Handled(more) => {
                if more {
                    ForwardAction::Receive
                } else {
                    self.running = false;
                    ForwardAction::Stop
                }
            },
        }
    }
}

/// The messages that the handler has had in the end, when the channel still holds `waiting`
/// and is closed behind that, the handler has had `handled`, and `more` says whether it wants
/// more after the messages that it has had.
pub open spec fn forwarded<T>(
    forwarder: ForwarderView,
    waiting: Seq<T>,
    handled: Seq<T>,
    more: spec_fn(Seq<T>) -> bool,
) -> Seq<T>
    decreases waiting.len(),
{
    if !forwarder.running || waiting.len() == 0 {
        handled
    } else {
        let event = ForwardEvent::Received(waiting[0]);
        match forwarder.action(event) {
            ForwardAction::Handle(message) => {
                let now_handled = handled.push(message);
                forwarded(
                    forwarder.after(event).after(ForwardEvent::<T>::Handled(more(now_handled))),
                    waiting.drop_first(),
                    now_handled,
                    more,
                )
            },
            _ => handled,
        }
    }
}

/// The handler gets the messages in the order in which they were sent, each once, without a
/// gap from the first on; and it gets all of them unless it has asked for no more.
pub proof fn law_forwarder_keeps_order<T>(messages: Seq<T>, more: spec_fn(Seq<T>) -> bool)
    ensures
        ({
            let handled = forwarded(ForwarderView::initial(), messages, seq![], more);
            let count = handled.len() as int;
            &&& count <= messages.len()
            &&& handled == messages.take(count)
            &&& forall|n: int| 0 < n < count ==> more(#[trigger] messages.take(n))
            &&& count < messages.len() ==> count > 0 && !more(messages.take(count))
        }),
{
    lemma_forwarded(messages, 0, more);
    assert(messages.take(0) =~= seq![]);
    assert(messages.skip(0) =~= messages);
}

proof fn lemma_forwarded<T>(messages: Seq<T>, done: int, more: spec_fn(Seq<T>) -> bool)
    requires
        0 <= done <= messages.len(),
        forall|n: int| 0 < n <= done ==> more(#[trigger] messages.take(n)),
    ensures
        ({
            let handled = forwarded(
                ForwarderView::initial(),
                messages.skip(done),
                messages.take(done),
                more,
            );
            let count = handled.len() as int;
            &&& done <= count <= messages.len()
            &&& handled == messages.take(count)
            &&& forall|n: int| 0 < n < count ==> more(#[trigger] messages.take(n))
            &&& count < messages.len() ==> count > 0 && !more(messages.take(count))
        }),
    decreases messages.len() - done,
{
    let waiting = messages.skip(done);
    let handled = messages.take(done);
    if done < messages.len() {
        let now_handled = handled.push(waiting[0]);
        assert(now_handled =~= messages.take(done + 1));
        assert(waiting.drop_first() =~= messages.skip(done + 1));
        if more(now_handled) {
            lemma_forwarded(messages, done + 1, more);
        } else {
            reveal_with_fuel(forwarded, 2);
        }
    }
}

/// A forwarder hands on each message that it receives, as it is, and asks for the next one if and
/// only if the handler wants more. It stops when the channel is closed or the handler wants no
/// more, at no other time, and for good.
pub proof fn law_forwarder_stops_when_told<T>(
    forwarder: ForwarderView,
    message: T,
    event: ForwardEvent<T>,
)
    ensures
        ForwarderView::initial().running,
        forwarder.running ==> {
            &&& forwarder.action(ForwardEvent::Received(message)) == ForwardAction::Handle(message)
            &&& forwarder.after(ForwardEvent::Received(message)).running
            &&& forwarder.action(ForwardEvent::<T>::Handled(true)) is Receive
            &&& forwarder.after(ForwardEvent::<T>::Handled(true)).running
            &&& forwarder.action(ForwardEvent::<T>::Handled(false)) is Stop
            &&& !forwarder.after(ForwardEvent::<T>::Handled(false)).running
            &&& forwarder.action(ForwardEvent::<T>::Closed) is Stop
            &&& !forwarder.after(ForwardEvent::<T>::Closed).running
        },
        !forwarder.running ==> forwarder.action(event) is Stop && !forwarder.after(event).running,
{
}

} // verus!
