//! Keyboard bytes from a raw terminal, with the arrow keys' escape
//! sequences (ESC `[` `A`..`D`) recognised.

use vstd::prelude::*;

verus! {

/// The escape byte that starts an arrow key's sequence.
pub const ESCAPE: u8 = 0x1B;

/// Key events, the arrow keys included.
#[derive(Debug, Clone, Copy, PartialEq, Eq, Structural)]
pub enum KeyEvent {
    /// An ordinary key, by its byte.
    Regular(u8),
    /// Arrow up (ESC `[` `A`).
    ArrowUp,
    /// Arrow down (ESC `[` `B`).
    ArrowDown,
    /// Arrow left (ESC `[` `D`).
    ArrowLeft,
    /// Arrow right (ESC `[` `C`).
    ArrowRight,
}

/// Abstract state of the escape recogniser: whether an escape sequence is
/// open, and the bytes of it read so far after the escape byte.
pub struct EscapeView {
    pub in_escape: bool,
    pub buffer: Seq<u8>,
}

/// The key that the two bytes after an escape byte stand for, if any.
pub open spec fn arrow_of(first: u8, second: u8) -> Option<KeyEvent> {
    if first == 0x5B {
        if second == 0x41 {
            Some(KeyEvent::ArrowUp)
        } else if second == 0x42 {
            Some(KeyEvent::ArrowDown)
        } else if second == 0x43 {
            Some(KeyEvent::ArrowRight)
        } else if second == 0x44 {
            Some(KeyEvent::ArrowLeft)
        } else {
            None
        }
    } else {
        None
    }
}

/// One byte read: inside a sequence it is buffered, and the second byte
/// after the escape closes the sequence, answering its arrow key if it is
/// one; outside, the escape byte opens a sequence and any other byte is a
/// regular key.
pub open spec fn escape_step(s: EscapeView, byte: u8) -> (EscapeView, Option<KeyEvent>) {
    if s.in_escape {
        let buf = s.buffer.push(byte);
        if buf.len() >= 2 {
            (EscapeView { in_escape: false, buffer: Seq::empty() }, arrow_of(buf[0], buf[1]))
        } else {
            (EscapeView { in_escape: true, buffer: buf }, None)
        }
    } else if byte == ESCAPE {
        (EscapeView { in_escape: true, buffer: Seq::empty() }, None)
    } else {
        (s, Some(KeyEvent::Regular(byte)))
    }
}

/// Pending escape sequence state for arrow key handling.
pub struct EscapeState {
    buffer: Vec<u8>,
    in_escape: bool,
}

impl View for EscapeState {
    type V = EscapeView;

    closed spec fn view(&self) -> EscapeView {
        EscapeView { in_escape: self.in_escape, buffer: self.buffer@ }
    }
}

impl EscapeState {
    #[verifier::type_invariant]
    closed spec fn wf(self) -> bool {
        &&& self.in_escape ==> self.buffer@.len() <= 1
        &&& !self.in_escape ==> self.buffer@.len() == 0
    }

    /// A recogniser outside any sequence.
    pub fn new() -> (s: Self)
        ensures
            !s@.in_escape,
            s@.buffer == Seq::<u8>::empty(),
    {
        EscapeState { buffer: Vec::new(), in_escape: false }
    }

    /// Processes one byte and returns the completed key event, if any.
    pub fn process(&mut self, byte: u8) -> (r: Option<KeyEvent>)
        ensures
            (final(self)@, r) == escape_step(old(self)@, byte),
    {
        proof {
            use_type_invariant(&*self);
        }
        if self.in_escape {
            let mut buf = Vec::new();
            std::mem::swap(&mut buf, &mut self.buffer);
            buf.push(byte);
            if buf.len() >= 2 {
                let first = buf[0];
                let second = buf[1];
                let result = if first == 0x5B {
                    if second == 0x41 {
                        Some(KeyEvent::ArrowUp)
                    } else if second == 0x42 {
                        Some(KeyEvent::ArrowDown)
                    } else if second == 0x43 {
                        Some(KeyEvent::ArrowRight)
                    } else if second == 0x44 {
                        Some(KeyEvent::ArrowLeft)
                    } else {
                        None
                    }
                } else {
                    None
                };
                buf.clear();
                self.in_escape = false;
                self.buffer = buf;
                return result;
            }
            self.buffer = buf;
            None
        } else if byte == ESCAPE {
            let mut buf = Vec::new();
            std::mem::swap(&mut buf, &mut self.buffer);
            buf.clear();
            self.buffer = buf;
            self.in_escape = true;
            None
        } else {
            Some(KeyEvent::Regular(byte))
        }
    }
}

/// Outside a sequence, the three bytes ESC `[` and a letter `A`..`D` give
/// no event for the first two and the arrow key for the third, and leave
/// the recogniser outside any sequence again; so an arrow key never turns
/// into regular keys.
pub proof fn lemma_arrow_sequence(s: EscapeView, letter: u8)
    requires
        !s.in_escape,
        s.buffer.len() == 0,
        0x41 <= letter <= 0x44,
    ensures
        ({
            let (s1, r1) = escape_step(s, ESCAPE);
            let (s2, r2) = escape_step(s1, 0x5B);
            let (s3, r3) = escape_step(s2, letter);
            &&& r1 is None
            &&& r2 is None
            &&& r3 == arrow_of(0x5B, letter)
            &&& r3 is Some
            &&& !s3.in_escape
            &&& s3.buffer.len() == 0
        }),
{
    let (s1, r1) = escape_step(s, ESCAPE);
    let (s2, r2) = escape_step(s1, 0x5B);
    assert(s2.buffer =~= seq![0x5Bu8]);
    assert(s2.buffer.push(letter)[0] == 0x5B);
    assert(s2.buffer.push(letter)[1] == letter);
}

/// Outside a sequence every byte but the escape byte is answered at once
/// as that regular key, and the state is unchanged.
pub proof fn lemma_regular_key(s: EscapeView, byte: u8)
    requires
        !s.in_escape,
        byte != ESCAPE,
    ensures
        escape_step(s, byte) == (s, Some(KeyEvent::Regular(byte))),
{
}

} // verus!
