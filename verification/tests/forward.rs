use moq_gst::forward::{ForwardAction, ForwardEvent, Forwarder};
use std::sync::mpsc;

/// Forwards what comes out of a channel to a handler.
fn forward_all<T, F: FnMut(T) -> bool>(rx: mpsc::Receiver<T>, mut handler: F) {
    let mut forwarder = Forwarder::new();
    let mut action = ForwardAction::Receive;
    loop {
        let event = match action {
            ForwardAction::Receive => match rx.recv() {
                Ok(message) => ForwardEvent::Received(message),
                Err(_) => ForwardEvent::Closed,
            },
            ForwardAction::Handle(message) => ForwardEvent::Handled(handler(message)),
            ForwardAction::Stop => return,
        };
        action = forwarder.step(event);
    }
}

#[test]
fn forwarder_delivers_messages_in_order() {
    let (tx, rx) = mpsc::channel();
    let mut received: Vec<i32> = Vec::new();
    let mut done = false;

    tx.send(1).unwrap();
    tx.send(2).unwrap();
    tx.send(3).unwrap();
    drop(tx);

    forward_all(rx, |message: i32| {
        received.push(message);
        if received.len() >= 3 {
            done = true;
            false
        } else {
            true
        }
    });

    assert!(done);
    assert_eq!(received, vec![1, 2, 3]);
}

#[test]
fn forwarder_stops_when_the_handler_has_had_enough() {
    let (tx, rx) = mpsc::channel();
    let mut received: Vec<i32> = Vec::new();
    for message in 1..6 {
        tx.send(message).unwrap();
    }
    forward_all(rx, |message: i32| {
        received.push(message);
        message < 2
    });
    assert_eq!(received, vec![1, 2]);
}

#[test]
fn forwarder_stops_when_the_channel_is_closed() {
    let (tx, rx) = mpsc::channel();
    let mut received: Vec<i32> = Vec::new();
    tx.send(7).unwrap();
    drop(tx);
    forward_all(rx, |message: i32| {
        received.push(message);
        true
    });
    assert_eq!(received, vec![7]);
}

#[test]
fn stopped_forwarder_stays_stopped() {
    let mut forwarder = Forwarder::new();
    assert!(forwarder.is_running());
    assert!(matches!(
        forwarder.step(ForwardEvent::<i32>::Closed),
        ForwardAction::Stop
    ));
    assert!(!forwarder.is_running());
    assert!(matches!(
        forwarder.step(ForwardEvent::Received(1)),
        ForwardAction::Stop
    ));
}
