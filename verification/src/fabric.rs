//! Coordination fabric: the only state shared between the two execution
//! contexts.
//!
//! A [`Mailbox`] is a single-slot, back-pressured hand-off from the radio or
//! gateway (single producer) to the display task (single consumer): a send is
//! accepted only while the slot is free, and the slot becomes free again only
//! once the consumer has taken the frame *and* marked it done, so no frame is
//! ever overwritten unread. A [`ButtonSignal`] is the opposite trade-off: a
//! last-value-wins register where an unconsumed event is overwritten, which
//! suits button presses where only the most recent state matters.

use vstd::prelude::*;

verus! {

/// Width of the attached display in pixels.
pub const DISPLAY_WIDTH: u32 = 128;

/// Height of the attached display in pixels.
pub const DISPLAY_HEIGHT: u32 = 160;

/// Longest text a display message may carry, in bytes.
pub const MAX_DISPLAY_TEXT: usize = 128;

/// One of the two physical buttons, already debounced.
#[derive(Debug, Clone, Copy, PartialEq, Eq, Structural)]
pub enum Button {
    /// The "all good" button.
    Good,
    /// The "need help" button.
    Help,
}

/// What the display task is handed: either nothing new, or text to show.
#[derive(Debug, Clone)]
pub enum DisplayMessage {
    /// No update; the display keeps what it shows.
    NoUpdate,
    /// Text to show, up to [`MAX_DISPLAY_TEXT`] bytes.
    Message(Vec<u8>),
}

impl DisplayMessage {
    /// A message's text fits the display's buffer.
    pub open spec fn wf(self) -> bool {
        match self {
            DisplayMessage::NoUpdate => true,
            DisplayMessage::Message(t) => t@.len() <= MAX_DISPLAY_TEXT,
        }
    }
}

/// The single-slot display mailbox. `slot` holds a sent frame the consumer
/// has not yet taken; `draining` is set from the moment the consumer takes a
/// frame until it marks the hand-off done.
pub struct Mailbox {
    /// A sent frame the consumer has not yet taken.
    pub slot: Option<DisplayMessage>,
    /// Set while the consumer holds a taken frame, before `receive_done`.
    pub draining: bool,
}

/// What a send does to a mailbox, and whether it was accepted.
pub open spec fn spec_send(m: Mailbox, msg: DisplayMessage) -> (Mailbox, bool) {
    if m.send_allowed() {
        (Mailbox { slot: Some(msg), draining: false }, true)
    } else {
        (m, false)
    }
}

/// What a receive does to a mailbox, and what the consumer gets.
pub open spec fn spec_receive(m: Mailbox) -> (Mailbox, Option<DisplayMessage>) {
    match m.slot {
        Some(msg) => (Mailbox { slot: None, draining: true }, Some(msg)),
        None => (m, None),
    }
}

/// What marking a receive done does to a mailbox.
pub open spec fn spec_receive_done(m: Mailbox) -> Mailbox {
    Mailbox { slot: m.slot, draining: false }
}

impl Mailbox {
    /// The protocol's invariant: while the consumer works on a taken frame,
    /// the slot is empty. Every constructor establishes it and every method
    /// preserves it.
    pub open spec fn wf(self) -> bool {
        self.draining ==> self.slot is None
    }

    /// The frame sitting in the slot, not yet taken by the consumer.
    pub open spec fn pending(self) -> Option<DisplayMessage> {
        self.slot
    }

    /// The consumer has taken a frame and not yet marked the hand-off done.
    pub open spec fn in_receive(self) -> bool {
        self.draining
    }

    /// A send is accepted only while no frame is pending and the consumer is
    /// not still working on the previous one.
    pub open spec fn send_allowed(self) -> bool {
        self.slot is None && !self.draining
    }

    /// An empty mailbox, ready for a first send.
    pub fn new() -> (m: Mailbox)
        ensures
            m.wf(),
            m.send_allowed(),
            m.pending() is None,
            !m.in_receive(),
    {
        Mailbox { slot: None, draining: false }
    }

    /// The producer's send. Accepted exactly while the mailbox is free; a
    /// refused send returns the frame to the producer and leaves the mailbox
    /// untouched, so a pending frame is never overwritten. A producer that
    /// must deliver suspends on a refusal and tries again once the consumer
    /// is done.
    pub fn try_send(&mut self, msg: DisplayMessage) -> (r: Result<(), DisplayMessage>)
        ensures
            old(self).wf() ==> final(self).wf(),
            (*final(self), r is Ok) == spec_send(*old(self), msg),
            old(self).send_allowed() ==> r is Ok && final(self).pending() == Some(msg),
            !old(self).send_allowed() ==> r == Err::<(), DisplayMessage>(msg) && *final(self)
                == *old(self),
    {
        if self.draining {
            return Err(msg);
        }
        match self.slot {
            Some(_) => Err(msg),
            None => {
                self.slot = Some(msg);
                Ok(())
            },
        }
    }

    /// The consumer's receive: takes the pending frame, if any, and holds the
    /// mailbox closed to the producer until [`Mailbox::receive_done`].
    pub fn try_receive(&mut self) -> (r: Option<DisplayMessage>)
        ensures
            old(self).wf() ==> final(self).wf(),
            (*final(self), r) == spec_receive(*old(self)),
            r == old(self).pending(),
            old(self).pending() is Some ==> final(self).in_receive() && final(self).pending()
                is None,
            old(self).pending() is None ==> *final(self) == *old(self),
    {
        match self.slot.take() {
            Some(msg) => {
                self.draining = true;
                Some(msg)
            },
            None => None,
        }
    }

    /// The consumer marks the hand-off done; only now may the producer's next
    /// send be accepted.
    pub fn receive_done(&mut self)
        requires
            old(self).wf(),
            old(self).in_receive(),
        ensures
            final(self).wf(),
            *final(self) == spec_receive_done(*old(self)),
            final(self).send_allowed(),
    {
        self.draining = false;
    }
}

/// Backpressure of the display mailbox: after an accepted send, a second
/// send is refused — leaving the first frame in place — both while the frame
/// sits untaken and while the consumer is still working on it; only once the
/// consumer has taken the frame and marked the hand-off done is the next
/// send accepted. No frame is ever overwritten unread.
pub proof fn lemma_mailbox_backpressure(m0: Mailbox, msg0: DisplayMessage, msg1: DisplayMessage)
    requires
        m0.send_allowed(),
    ensures
        ({
            let m1 = spec_send(m0, msg0).0;
            let refused = spec_send(m1, msg1);
            let (m2, taken) = spec_receive(m1);
            let refused_mid = spec_send(m2, msg1);
            let m3 = spec_receive_done(m2);
            &&& spec_send(m0, msg0).1
            &&& !refused.1 && refused.0.pending() == Some(msg0)
            &&& taken == Some(msg0)
            &&& !refused_mid.1
            &&& spec_send(m3, msg1).1 && spec_send(m3, msg1).0.pending() == Some(msg1)
        }),
{
}

/// The button event register: last value wins, and writing overwrites an
/// unconsumed event.
pub struct ButtonSignal {
    /// The most recent unconsumed event, if any.
    pub value: Option<Button>,
}

/// What signalling an event does to the register: the new event replaces
/// whatever was there.
pub open spec fn spec_signal(s: ButtonSignal, b: Button) -> ButtonSignal {
    ButtonSignal { value: Some(b) }
}

impl ButtonSignal {
    /// The event waiting to be consumed, if any.
    pub open spec fn latest(self) -> Option<Button> {
        self.value
    }

    /// An empty register.
    pub fn new() -> (s: ButtonSignal)
        ensures
            s.latest() is None,
    {
        ButtonSignal { value: None }
    }

    /// Records an event, overwriting any unconsumed one.
    pub fn signal(&mut self, b: Button)
        ensures
            *final(self) == spec_signal(*old(self), b),
            final(self).latest() == Some(b),
    {
        self.value = Some(b);
    }

    /// Consumes the latest event, leaving the register empty.
    pub fn try_take(&mut self) -> (r: Option<Button>)
        ensures
            r == old(self).latest(),
            final(self).latest() is None,
    {
        self.value.take()
    }
}

/// The register keeps only the most recent write: whatever was signalled
/// before is gone once a newer event arrives.
pub proof fn lemma_signal_last_wins(s0: ButtonSignal, b0: Button, b1: Button)
    ensures
        spec_signal(spec_signal(s0, b0), b1).latest() == Some(b1),
{
}

/// The display task's memory of what it last drew: it redraws only when the
/// new text differs, so a duplicated frame costs nothing.
pub struct DisplayShown {
    /// The text currently on the display.
    pub last: Vec<u8>,
}

impl DisplayShown {
    /// The text currently on the display.
    pub open spec fn last_shown(self) -> Seq<u8> {
        self.last@
    }

    /// A blank display.
    pub fn new() -> (d: DisplayShown)
        ensures
            d.last_shown() == Seq::<u8>::empty(),
    {
        DisplayShown { last: Vec::new() }
    }

    /// Takes one mailbox frame: reports whether the display must be redrawn
    /// — exactly when the frame carries text that differs from what is shown
    /// — and remembers the text it now shows.
    pub fn note(&mut self, msg: &DisplayMessage) -> (redraw: bool)
        ensures
            match msg {
                DisplayMessage::NoUpdate => !redraw && *final(self) == *old(self),
                DisplayMessage::Message(t) => redraw == (t@ != old(self).last_shown())
                    && final(self).last_shown() == t@,
            },
    {
        match msg {
            DisplayMessage::NoUpdate => false,
            DisplayMessage::Message(t) => {
                if bytes_eq(t, &self.last) {
                    false
                } else {
                    self.last = t.clone();
                    proof {
                        assert(self.last@ =~= t@);
                    }
                    true
                }
            },
        }
    }
}

/// Whether two byte strings are equal, byte for byte.
pub fn bytes_eq(a: &Vec<u8>, b: &Vec<u8>) -> (r: bool)
    ensures
        r == (a@ == b@),
{
    if a.len() != b.len() {
        proof {
            assert(a@ != b@);
        }
        return false;
    }
    let mut i: usize = 0;
    while i < a.len()
        invariant
            0 <= i <= a@.len(),
            a@.len() == b@.len(),
            forall|j: int| 0 <= j < i ==> a@[j] == b@[j],
        decreases a@.len() - i,
    {
        if a[i] != b[i] {
            return false;
        }
        i += 1;
    }
    proof {
        assert(a@ =~= b@);
    }
    true
}

} // verus!
