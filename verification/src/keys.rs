use vstd::prelude::*;

verus! {

/// A logical key event: the closed set of keys the session reacts to.
/// Anything that is not a recognized navigation key arrives as `Other`.
#[derive(Clone, Copy, PartialEq, Eq, Structural, Debug)]
pub enum EditorKey {
    ArrowLeft,
    ArrowRight,
    ArrowUp,
    ArrowDown,
    PageUp,
    PageDown,
    Home,
    End,
    Delete,
    Other(char),
}

/// One unit of input handed to the decoder: a byte that arrived on the
/// input stream, or a read that returned nothing within its timeout.
#[derive(Clone, Copy, PartialEq, Eq, Structural, Debug)]
pub enum InputEvent {
    Byte(u8),
    TimedOut,
}

/// The decoder's position inside an ANSI escape sequence. The decoder
/// consumes one `InputEvent` per transition.
#[derive(Clone, Copy, PartialEq, Eq, Structural, Debug)]
pub enum DecoderState {
    /// Not inside a sequence.
    Idle,
    /// An escape byte was seen.
    SawEscape,
    /// `ESC [` has been seen.
    SawCsi,
    /// `ESC [ d` has been seen for the digit byte held here; a `~`
    /// terminator is awaited.
    AwaitingTilde(u8),
    /// `ESC O` has been seen.
    SawEscO,
    /// The sequence is already unrecognized; one more byte is consumed
    /// before falling back to a bare escape key.
    Discard,
}

/// The escape character, as the decoder reports it when a sequence is
/// absent, truncated or unrecognized.
pub open spec fn escape_char() -> char {
    '\x1b'
}

/// The key named by a numeric CSI sequence `ESC [ d ~`, for the digit
/// byte `d`. Unrecognized digits fall back to the bare escape key.
pub open spec fn csi_tilde_key(d: u8) -> EditorKey {
    if d == 0x31 || d == 0x37 {
        EditorKey::Home
    } else if d == 0x33 {
        EditorKey::Delete
    } else if d == 0x34 || d == 0x38 {
        EditorKey::End
    } else if d == 0x35 {
        EditorKey::PageUp
    } else if d == 0x36 {
        EditorKey::PageDown
    } else {
        EditorKey::Other(escape_char())
    }
}

/// The key named by the byte `b` directly after `ESC [`.
pub open spec fn csi_final_key(b: u8) -> EditorKey {
    if b == 0x41 {
        EditorKey::ArrowUp
    } else if b == 0x42 {
        EditorKey::ArrowDown
    } else if b == 0x43 {
        EditorKey::ArrowRight
    } else if b == 0x44 {
        EditorKey::ArrowLeft
    } else if b == 0x46 {
        EditorKey::End
    } else if b == 0x48 {
        EditorKey::Home
    } else {
        EditorKey::Other(escape_char())
    }
}

/// The full transition relation of the decoder: from a state and one
/// input event to the next state and the key resolved, if any.
pub open spec fn spec_step(st: DecoderState, ev: InputEvent) -> (DecoderState, Option<
    EditorKey,
>) {
    match (st, ev) {
        (DecoderState::Idle, InputEvent::Byte(b)) => {
            if b == 0x1b {
                (DecoderState::SawEscape, None)
            } else {
                (DecoderState::Idle, Some(EditorKey::Other(b as char)))
            }
        },
        (DecoderState::Idle, InputEvent::TimedOut) => (DecoderState::Idle, None),
        (DecoderState::SawEscape, InputEvent::Byte(b)) => {
            if b == 0x5b {
                (DecoderState::SawCsi, None)
            } else if b == 0x4f {
                (DecoderState::SawEscO, None)
            } else {
                (DecoderState::Discard, None)
            }
        },
        (DecoderState::SawEscape, InputEvent::TimedOut) => (
            DecoderState::Idle,
            Some(EditorKey::Other(escape_char())),
        ),
        (DecoderState::SawCsi, InputEvent::Byte(b)) => {
            if 0x30 <= b && b <= 0x39 {
                (DecoderState::AwaitingTilde(b), None)
            } else {
                (DecoderState::Idle, Some(csi_final_key(b)))
            }
        },
        (DecoderState::SawCsi, InputEvent::TimedOut) => (
            DecoderState::Idle,
            Some(EditorKey::Other(escape_char())),
        ),
        (DecoderState::AwaitingTilde(d), InputEvent::Byte(b)) => {
            if b == 0x7e {
                (DecoderState::Idle, Some(csi_tilde_key(d)))
            } else {
                (DecoderState::Idle, Some(EditorKey::Other(escape_char())))
            }
        },
        (DecoderState::AwaitingTilde(_), InputEvent::TimedOut) => (
            DecoderState::Idle,
            Some(EditorKey::Other(escape_char())),
        ),
        (DecoderState::SawEscO, InputEvent::Byte(b)) => {
            if b == 0x46 {
                (DecoderState::Idle, Some(EditorKey::End))
            } else if b == 0x48 {
                (DecoderState::Idle, Some(EditorKey::Home))
            } else {
                (DecoderState::Idle, Some(EditorKey::Other(escape_char())))
            }
        },
        (DecoderState::SawEscO, InputEvent::TimedOut) => (
            DecoderState::Idle,
            Some(EditorKey::Other(escape_char())),
        ),
        (DecoderState::Discard, _) => (DecoderState::Idle, Some(EditorKey::Other(escape_char()))),
    }
}

/// Advance the decoder by one input event. Returns the next state and,
/// when a whole key has been resolved, that key.
pub fn decoder_step(st: DecoderState, ev: InputEvent) -> (r: (DecoderState, Option<EditorKey>))
    ensures
        r == spec_step(st, ev),
{
    match (st, ev) {
        (DecoderState::Idle, InputEvent::Byte(b)) => {
            if b == 0x1b {
                (DecoderState::SawEscape, None)
            } else {
                (DecoderState::Idle, Some(EditorKey::Other(b as char)))
            }
        },
        (DecoderState::Idle, InputEvent::TimedOut) => (DecoderState::Idle, None),
        (DecoderState::SawEscape, InputEvent::Byte(b)) => {
            if b == 0x5b {
                (DecoderState::SawCsi, None)
            } else if b == 0x4f {
                (DecoderState::SawEscO, None)
            } else {
                (DecoderState::Discard, None)
            }
        },
        (DecoderState::SawEscape, InputEvent::TimedOut) => (
            DecoderState::Idle,
            Some(EditorKey::Other('\x1b')),
        ),
        (DecoderState::SawCsi, InputEvent::Byte(b)) => {
            if 0x30 <= b && b <= 0x39 {
                (DecoderState::AwaitingTilde(b), None)
            } else {
                let key = if b == 0x41 {
                    EditorKey::ArrowUp
                } else if b == 0x42 {
                    EditorKey::ArrowDown
                } else if b == 0x43 {
                    EditorKey::ArrowRight
                } else if b == 0x44 {
                    EditorKey::ArrowLeft
                } else if b == 0x46 {
                    EditorKey::End
                } else if b == 0x48 {
                    EditorKey::Home
                } else {
                    EditorKey::Other('\x1b')
                };
                (DecoderState::Idle, Some(key))
            }
        },
        (DecoderState::SawCsi, InputEvent::TimedOut) => (
            DecoderState::Idle,
            Some(EditorKey::Other('\x1b')),
        ),
        (DecoderState::AwaitingTilde(d), InputEvent::Byte(b)) => {
            if b == 0x7e {
                let key = if d == 0x31 || d == 0x37 {
                    EditorKey::Home
                } else if d == 0x33 {
                    EditorKey::Delete
                } else if d == 0x34 || d == 0x38 {
                    EditorKey::End
                } else if d == 0x35 {
                    EditorKey::PageUp
                } else if d == 0x36 {
                    EditorKey::PageDown
                } else {
                    EditorKey::Other('\x1b')
                };
                (DecoderState::Idle, Some(key))
            } else {
                (DecoderState::Idle, Some(EditorKey::Other('\x1b')))
            }
        },
        (DecoderState::AwaitingTilde(_), InputEvent::TimedOut) => (
            DecoderState::Idle,
            Some(EditorKey::Other('\x1b')),
        ),
        (DecoderState::SawEscO, InputEvent::Byte(b)) => {
            if b == 0x46 {
                (DecoderState::Idle, Some(EditorKey::End))
            } else if b == 0x48 {
                (DecoderState::Idle, Some(EditorKey::Home))
            } else {
                (DecoderState::Idle, Some(EditorKey::Other('\x1b')))
            }
        },
        (DecoderState::SawEscO, InputEvent::TimedOut) => (
            DecoderState::Idle,
            Some(EditorKey::Other('\x1b')),
        ),
        (DecoderState::Discard, _) => (DecoderState::Idle, Some(EditorKey::Other('\x1b'))),
    }
}

/// The character produced by holding Ctrl while typing the key for byte
/// `b`: the low five bits of the byte.
pub fn ctrl_key(b: u8) -> (c: char)
    ensures
        c == ((b & 0x1f) as char),
{
    (b & 0x1f) as char
}

} // verus!
