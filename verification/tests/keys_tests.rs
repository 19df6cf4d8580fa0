use kilo::ctrl_key;
use kilo::keys::DecoderState;
use kilo::keys::EditorKey;
use kilo::keys::InputEvent;
use kilo::keys::decoder_step;

/// Feed a byte sequence to a fresh decoder and return every key it
/// resolves; `timeout_after` appends one timed-out read at the end.
fn decode_all(bytes: &[u8], timeout_after: bool) -> Vec<EditorKey> {
    let mut st = DecoderState::Idle;
    let mut keys = Vec::new();
    for &b in bytes {
        let (next, key) = decoder_step(st, InputEvent::Byte(b));
        st = next;
        if let Some(k) = key {
            keys.push(k);
        }
    }
    if timeout_after {
        let (_, key) = decoder_step(st, InputEvent::TimedOut);
        if let Some(k) = key {
            keys.push(k);
        }
    }
    keys
}

#[test]
fn esc_bracket_a_is_arrow_up() {
    assert_eq!(decode_all(&[0x1b, 0x5b, 0x41], false), vec![EditorKey::ArrowUp]);
}

#[test]
fn arrow_sequences() {
    assert_eq!(decode_all(b"\x1b[B", false), vec![EditorKey::ArrowDown]);
    assert_eq!(decode_all(b"\x1b[C", false), vec![EditorKey::ArrowRight]);
    assert_eq!(decode_all(b"\x1b[D", false), vec![EditorKey::ArrowLeft]);
}

#[test]
fn esc_bracket_3_tilde_is_delete() {
    assert_eq!(decode_all(&[0x1b, 0x5b, 0x33, 0x7e], false), vec![EditorKey::Delete]);
}

#[test]
fn numeric_sequences() {
    assert_eq!(decode_all(b"\x1b[1~", false), vec![EditorKey::Home]);
    assert_eq!(decode_all(b"\x1b[4~", false), vec![EditorKey::End]);
    assert_eq!(decode_all(b"\x1b[5~", false), vec![EditorKey::PageUp]);
    assert_eq!(decode_all(b"\x1b[6~", false), vec![EditorKey::PageDown]);
    assert_eq!(decode_all(b"\x1b[7~", false), vec![EditorKey::Home]);
    assert_eq!(decode_all(b"\x1b[8~", false), vec![EditorKey::End]);
}

#[test]
fn unrecognized_digit_falls_back_to_escape() {
    assert_eq!(decode_all(b"\x1b[2~", false), vec![EditorKey::Other('\x1b')]);
}

#[test]
fn missing_tilde_falls_back_to_escape() {
    assert_eq!(decode_all(b"\x1b[5x", false), vec![EditorKey::Other('\x1b')]);
    assert_eq!(decode_all(b"\x1b[5", true), vec![EditorKey::Other('\x1b')]);
}

#[test]
fn home_end_encodings() {
    assert_eq!(decode_all(b"\x1b[F", false), vec![EditorKey::End]);
    assert_eq!(decode_all(b"\x1b[H", false), vec![EditorKey::Home]);
    assert_eq!(decode_all(b"\x1bOF", false), vec![EditorKey::End]);
    assert_eq!(decode_all(b"\x1bOH", false), vec![EditorKey::Home]);
}

#[test]
fn lone_escape_times_out_to_escape_key() {
    assert_eq!(decode_all(&[0x1b], true), vec![EditorKey::Other('\x1b')]);
}

#[test]
fn unrecognized_tail_degrades_to_escape() {
    // The byte after the escape is neither `[` nor `O`: one more byte is
    // consumed, then the bare escape key is reported.
    assert_eq!(decode_all(b"\x1bZQ", false), vec![EditorKey::Other('\x1b')]);
    assert_eq!(decode_all(b"\x1b[Z", false), vec![EditorKey::Other('\x1b')]);
}

#[test]
fn plain_bytes_are_other_keys() {
    assert_eq!(decode_all(b"hi", false), vec![EditorKey::Other('h'), EditorKey::Other('i')]);
}

#[test]
fn idle_timeout_resolves_nothing() {
    assert_eq!(decode_all(&[], true), vec![]);
}

#[test]
fn keys_after_a_sequence_decode_normally() {
    assert_eq!(
        decode_all(b"\x1b[Aq", false),
        vec![EditorKey::ArrowUp, EditorKey::Other('q')]
    );
}

#[test]
fn ctrl_key_masks_low_five_bits() {
    assert_eq!(ctrl_key(b'q'), '\u{11}');
    assert_eq!(ctrl_key(b'a'), '\u{01}');
    assert_eq!(ctrl_key(0x7f), '\u{1f}');
}
