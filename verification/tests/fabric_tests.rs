//! The coordination fabric against its contract: mailbox backpressure, the
//! last-value-wins button signal, and the display's deduplication.

use lewoc::fabric::{Button, ButtonSignal, DisplayMessage, DisplayShown, Mailbox};

#[test]
fn mailbox_backpressure() {
    let mut m = Mailbox::new();
    assert!(m.try_send(DisplayMessage::Message(b"first".to_vec())).is_ok());

    // A second send is refused while the first frame sits unread, and the
    // refused frame comes back to the producer.
    match m.try_send(DisplayMessage::Message(b"second".to_vec())) {
        Err(DisplayMessage::Message(t)) => assert_eq!(t, b"second"),
        _ => panic!("second send must be refused while a frame is pending"),
    }

    // The consumer takes the first frame — still refused until it is done.
    match m.try_receive() {
        Some(DisplayMessage::Message(t)) => assert_eq!(t, b"first"),
        _ => panic!("the pending frame must come out"),
    }
    assert!(m.try_send(DisplayMessage::Message(b"second".to_vec())).is_err());

    // Only after receive_done is the next send accepted.
    m.receive_done();
    assert!(m.try_send(DisplayMessage::Message(b"second".to_vec())).is_ok());
}

#[test]
fn mailbox_receive_on_empty_returns_nothing() {
    let mut m = Mailbox::new();
    assert!(m.try_receive().is_none());
    assert!(m.try_send(DisplayMessage::NoUpdate).is_ok());
}

#[test]
fn signal_keeps_latest_event_only() {
    let mut s = ButtonSignal::new();
    assert_eq!(s.try_take(), None);
    s.signal(Button::Good);
    s.signal(Button::Help);
    assert_eq!(s.try_take(), Some(Button::Help));
    assert_eq!(s.try_take(), None);
}

#[test]
fn display_redraws_only_on_new_text() {
    let mut d = DisplayShown::new();
    assert!(d.note(&DisplayMessage::Message(b"Hello".to_vec())));
    // The same text again is deduplicated.
    assert!(!d.note(&DisplayMessage::Message(b"Hello".to_vec())));
    assert!(!d.note(&DisplayMessage::NoUpdate));
    assert!(d.note(&DisplayMessage::Message(b"Bye".to_vec())));
    assert!(!d.note(&DisplayMessage::Message(b"Bye".to_vec())));
}
