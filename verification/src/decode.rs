//! The escape-sequence decoder: maps an accumulating byte buffer (plus a
//! hint that more bytes are immediately available) to one of three outcomes:
//!
//! * `Ok(None)` — the buffer is a prefix of a sequence; wait for more bytes
//!   and keep the buffer;
//! * `Ok(Some(event))` — the buffer holds one complete event; clear it;
//! * `Err(_)` — the buffer is malformed; discard it and resume cleanly.
//!
//! Every public function here is total over its stated inputs and equals a
//! spec-level description of the byte grammar, so decoding is a function of
//! the buffer and the hint alone.

use crate::events::{
    InputEvent, InputEventView, InternalEvent, InternalEventView, KeyEvent, MouseButton,
    MouseEvent,
};
use crate::fields::{
    field_value, has_second_field, parse_field_u16, second_field_value, third_field_value,
};
use vstd::prelude::*;

verus! {

/// The decoder's only error: the buffer cannot be the prefix of any event.
#[derive(Debug, PartialEq, Eq, Structural, Clone, Copy, Hash)]
pub enum ParseError {
    /// The bytes do not form, and can never grow into, a recognized event.
    CouldNotParseEvent,
}

/// A decode outcome at the specification level.
pub type SpecOutcome = Result<Option<InternalEventView>, ParseError>;

/// A complete keyboard event.
pub open spec fn ev_key(k: KeyEvent) -> SpecOutcome {
    Ok(Some(InternalEventView::Input(InputEventView::Keyboard(k))))
}

/// A complete mouse event.
pub open spec fn ev_mouse(m: MouseEvent) -> SpecOutcome {
    Ok(Some(InternalEventView::Input(InputEventView::Mouse(m))))
}

/// A complete event of any public shape.
pub open spec fn ev_input(e: InputEventView) -> SpecOutcome {
    Ok(Some(InternalEventView::Input(e)))
}

/// More bytes are needed; the buffer is kept.
pub open spec fn incomplete() -> SpecOutcome {
    Ok(None)
}

/// The buffer is malformed and must be discarded.
pub open spec fn invalid() -> SpecOutcome {
    Err(ParseError::CouldNotParseEvent)
}

/// Ties an executable decode result to its specification-level outcome.
pub open spec fn outcome_is(r: Result<Option<InternalEvent>, ParseError>, o: SpecOutcome) -> bool {
    match (r, o) {
        (Ok(a), Ok(b)) => a.deep_view() == b,
        (Err(a), Err(b)) => a == b,
        _ => false,
    }
}

/// The modifier-prefixed arrow keys: the pair of the last two raw bytes of
/// the sequence selects Ctrl or Shift plus an arrow; every other pair is
/// unclassifiable.
pub open spec fn spec_modifier_key(modifier: u8, key: u8) -> InputEventView {
    if modifier == 53 && key == 65 {
        InputEventView::Keyboard(KeyEvent::CtrlUp)
    } else if modifier == 53 && key == 66 {
        InputEventView::Keyboard(KeyEvent::CtrlDown)
    } else if modifier == 53 && key == 67 {
        InputEventView::Keyboard(KeyEvent::CtrlRight)
    } else if modifier == 53 && key == 68 {
        InputEventView::Keyboard(KeyEvent::CtrlLeft)
    } else if modifier == 50 && key == 65 {
        InputEventView::Keyboard(KeyEvent::ShiftUp)
    } else if modifier == 50 && key == 66 {
        InputEventView::Keyboard(KeyEvent::ShiftDown)
    } else if modifier == 50 && key == 67 {
        InputEventView::Keyboard(KeyEvent::ShiftRight)
    } else if modifier == 50 && key == 68 {
        InputEventView::Keyboard(KeyEvent::ShiftLeft)
    } else {
        InputEventView::Unknown
    }
}

/// Outcome of a numbered CSI sequence whose terminator selects the
/// modifier-prefixed arrow keys.
pub open spec fn spec_parse_csi_modifier_key_code(s: Seq<u8>) -> SpecOutcome {
    Ok(Some(InternalEventView::Input(spec_modifier_key(s[s.len() - 2], s[s.len() - 1]))))
}

/// The special-key table of the `~`-terminated numbered CSI sequences.
pub open spec fn spec_special_key(v: u16) -> InputEventView {
    if v == 1 || v == 7 {
        InputEventView::Keyboard(KeyEvent::Home)
    } else if v == 2 {
        InputEventView::Keyboard(KeyEvent::Insert)
    } else if v == 3 {
        InputEventView::Keyboard(KeyEvent::Delete)
    } else if v == 4 || v == 8 {
        InputEventView::Keyboard(KeyEvent::End)
    } else if v == 5 {
        InputEventView::Keyboard(KeyEvent::PageUp)
    } else if v == 6 {
        InputEventView::Keyboard(KeyEvent::PageDown)
    } else if 11 <= v <= 15 {
        InputEventView::Keyboard(KeyEvent::F((v - 10) as u8))
    } else if 17 <= v <= 21 {
        InputEventView::Keyboard(KeyEvent::F((v - 11) as u8))
    } else if 23 <= v <= 24 {
        InputEventView::Keyboard(KeyEvent::F((v - 12) as u8))
    } else {
        InputEventView::Unknown
    }
}

/// Outcome of a `~`-terminated numbered CSI sequence: a special key code,
/// made unclassifiable by a second parameter (modifier combinations on
/// special keys are deliberately not decoded), and malformed when the first
/// parameter is not a number below 256.
pub open spec fn spec_parse_csi_special_key_code(s: Seq<u8>) -> SpecOutcome {
    let hi = s.len() - 1;
    match field_value(s, 2, hi) {
        None => invalid(),
        Some(v) => if v > 255 {
            invalid()
        } else if has_second_field(s, 2, hi) && second_field_parses_u8(s, 2, hi) {
            ev_input(InputEventView::Unknown)
        } else {
            ev_input(spec_special_key(v))
        },
    }
}

/// True when the second parameter field exists and is a number below 256.
pub open spec fn second_field_parses_u8(s: Seq<u8>, lo: int, hi: int) -> bool {
    match second_field_value(s, lo, hi) {
        Some(w) => w <= 255,
        None => false,
    }
}

/// Decodes a modifier-prefixed arrow key from the last two bytes of a
/// numbered CSI sequence.
pub fn parse_csi_modifier_key_code(buffer: &[u8]) -> (r: Result<
    Option<InternalEvent>,
    ParseError,
>)
    requires
        buffer@.len() >= 2,
        buffer@[0] == 0x1B,
        buffer@[1] == 0x5B,
    ensures
        outcome_is(r, spec_parse_csi_modifier_key_code(buffer@)),
{
    let n = buffer.len();
    let modifier = buffer[n - 2];
    let key = buffer[n - 1];
    let input_event = if modifier == 53 && key == 65 {
        InputEvent::Keyboard(KeyEvent::CtrlUp)
    } else if modifier == 53 && key == 66 {
        InputEvent::Keyboard(KeyEvent::CtrlDown)
    } else if modifier == 53 && key == 67 {
        InputEvent::Keyboard(KeyEvent::CtrlRight)
    } else if modifier == 53 && key == 68 {
        InputEvent::Keyboard(KeyEvent::CtrlLeft)
    } else if modifier == 50 && key == 65 {
        InputEvent::Keyboard(KeyEvent::ShiftUp)
    } else if modifier == 50 && key == 66 {
        InputEvent::Keyboard(KeyEvent::ShiftDown)
    } else if modifier == 50 && key == 67 {
        InputEvent::Keyboard(KeyEvent::ShiftRight)
    } else if modifier == 50 && key == 68 {
        InputEvent::Keyboard(KeyEvent::ShiftLeft)
    } else {
        InputEvent::Unknown
    };
    Ok(Some(InternalEvent::Input(input_event)))
}

/// Decodes a `~`-terminated numbered CSI sequence into a special key.
pub fn parse_csi_special_key_code(buffer: &[u8]) -> (r: Result<Option<InternalEvent>, ParseError>)
    requires
        buffer@.len() >= 3,
        buffer@[0] == 0x1B,
        buffer@[1] == 0x5B,
        buffer@[buffer@.len() - 1] == 0x7E,
    ensures
        outcome_is(r, spec_parse_csi_special_key_code(buffer@)),
{
    let hi = buffer.len() - 1;
    let first = match parse_field_u16(buffer, 2, hi) {
        Some(p) => p,
        None => {
            return Err(ParseError::CouldNotParseEvent);
        },
    };
    let (v, e) = first;
    if v > 255 {
        return Err(ParseError::CouldNotParseEvent);
    }
    if e < hi {
        // A second parameter field exists; special keys with modifiers are
        // not decoded.
        if let Some((w, _)) = parse_field_u16(buffer, e + 1, hi) {
            if w <= 255 {
                return Ok(Some(InternalEvent::Input(InputEvent::Unknown)));
            }
        }
    }
    let key = if v == 1 || v == 7 {
        InputEvent::Keyboard(KeyEvent::Home)
    } else if v == 2 {
        InputEvent::Keyboard(KeyEvent::Insert)
    } else if v == 3 {
        InputEvent::Keyboard(KeyEvent::Delete)
    } else if v == 4 || v == 8 {
        InputEvent::Keyboard(KeyEvent::End)
    } else if v == 5 {
        InputEvent::Keyboard(KeyEvent::PageUp)
    } else if v == 6 {
        InputEvent::Keyboard(KeyEvent::PageDown)
    } else if 11 <= v && v <= 15 {
        InputEvent::Keyboard(KeyEvent::F((v - 10) as u8))
    } else if 17 <= v && v <= 21 {
        InputEvent::Keyboard(KeyEvent::F((v - 11) as u8))
    } else if 23 <= v && v <= 24 {
        InputEvent::Keyboard(KeyEvent::F((v - 12) as u8))
    } else {
        InputEvent::Unknown
    };
    Ok(Some(InternalEvent::Input(key)))
}

/// Outcome of an `R`-terminated numbered CSI sequence: the terminal's
/// answer to a cursor-location query, `row;column`, both one-based on the
/// wire and zero-based in the event.
pub open spec fn spec_parse_csi_cursor_position(s: Seq<u8>) -> SpecOutcome {
    let hi = s.len() - 1;
    match (field_value(s, 2, hi), second_field_value(s, 2, hi)) {
        (Some(cy), Some(cx)) => if cy == 0 || cx == 0 {
            invalid()
        } else {
            Ok(Some(InternalEventView::CursorPosition((cx - 1) as u16, (cy - 1) as u16)))
        },
        _ => invalid(),
    }
}

/// Outcome of an `M`-terminated numbered CSI sequence: the rxvt mouse
/// encoding `Cb ; Cx ; Cy ; M` with one-based coordinates.
pub open spec fn spec_parse_csi_rxvt_mouse(s: Seq<u8>) -> SpecOutcome {
    let hi = s.len() - 1;
    match (field_value(s, 2, hi), second_field_value(s, 2, hi), third_field_value(s, 2, hi)) {
        (Some(cb), Some(cx), Some(cy)) => if cx == 0 || cy == 0 {
            invalid()
        } else {
            let x = (cx - 1) as u16;
            let y = (cy - 1) as u16;
            ev_mouse(
                if cb == 32 {
                    MouseEvent::Press(MouseButton::Left, x, y)
                } else if cb == 33 {
                    MouseEvent::Press(MouseButton::Middle, x, y)
                } else if cb == 34 {
                    MouseEvent::Press(MouseButton::Right, x, y)
                } else if cb == 35 {
                    MouseEvent::Release(x, y)
                } else if cb == 64 {
                    MouseEvent::Hold(x, y)
                } else if cb == 96 || cb == 97 {
                    MouseEvent::Press(MouseButton::WheelUp, x, y)
                } else {
                    MouseEvent::Unknown
                },
            )
        },
        _ => invalid(),
    }
}

/// The X10 mouse button byte, offset by 32 on the wire (with wraparound, as
/// the byte is read as a signed value).
pub open spec fn x10_cb(b: u8) -> u8 {
    (((b as int) + 224) % 256) as u8
}

/// Outcome of `ESC [ M Cb Cx Cy`: the X10 mouse encoding, six bytes in all;
/// the low two bits of `Cb - 32` select the button, bit 6 turns buttons one
/// and two into wheel motion, and the coordinates are offset by 32 and
/// one-based.
pub open spec fn spec_parse_csi_x10_mouse(s: Seq<u8>) -> SpecOutcome {
    if s.len() < 6 {
        incomplete()
    } else if s[4] < 33 || s[5] < 33 {
        invalid()
    } else {
        let cb = x10_cb(s[3]);
        let x = (s[4] - 33) as u16;
        let y = (s[5] - 33) as u16;
        let low = cb & 3;
        ev_mouse(
            if low == 0 {
                if cb & 64 != 0 {
                    MouseEvent::Press(MouseButton::WheelUp, x, y)
                } else {
                    MouseEvent::Press(MouseButton::Left, x, y)
                }
            } else if low == 1 {
                if cb & 64 != 0 {
                    MouseEvent::Press(MouseButton::WheelDown, x, y)
                } else {
                    MouseEvent::Press(MouseButton::Middle, x, y)
                }
            } else if low == 2 {
                MouseEvent::Press(MouseButton::Right, x, y)
            } else {
                MouseEvent::Release(x, y)
            },
        )
    }
}

/// Outcome of `ESC [ < Cb ; Cx ; Cy M|m`: the xterm SGR mouse encoding,
/// ASCII fields terminated by `M` (press) or `m` (release); without a
/// terminator the sequence is still arriving.
pub open spec fn spec_parse_csi_xterm_mouse(s: Seq<u8>) -> SpecOutcome {
    let last = s[s.len() - 1];
    if last != 77 && last != 109 {
        incomplete()
    } else {
        let hi = s.len() - 1;
        match (field_value(s, 3, hi), second_field_value(s, 3, hi), third_field_value(s, 3, hi)) {
            (Some(cb), Some(cx), Some(cy)) => if cx == 0 || cy == 0 {
                invalid()
            } else {
                let x = (cx - 1) as u16;
                let y = (cy - 1) as u16;
                ev_input(
                    if cb == 0 || cb == 1 || cb == 2 || cb == 64 || cb == 65 {
                        let button = if cb == 0 {
                            MouseButton::Left
                        } else if cb == 1 {
                            MouseButton::Middle
                        } else if cb == 2 {
                            MouseButton::Right
                        } else if cb == 64 {
                            MouseButton::WheelUp
                        } else {
                            MouseButton::WheelDown
                        };
                        if last == 77 {
                            InputEventView::Mouse(MouseEvent::Press(button, x, y))
                        } else {
                            InputEventView::Mouse(MouseEvent::Release(x, y))
                        }
                    } else if cb == 32 {
                        InputEventView::Mouse(MouseEvent::Hold(x, y))
                    } else if cb == 3 {
                        InputEventView::Mouse(MouseEvent::Release(x, y))
                    } else {
                        InputEventView::Unknown
                    },
                )
            },
            _ => invalid(),
        }
    }
}

/// Decodes a cursor-position report `ESC [ Cy ; Cx R`.
pub fn parse_csi_cursor_position(buffer: &[u8]) -> (r: Result<Option<InternalEvent>, ParseError>)
    requires
        buffer@.len() >= 3,
        buffer@[0] == 0x1B,
        buffer@[1] == 0x5B,
        buffer@[buffer@.len() - 1] == 0x52,
    ensures
        outcome_is(r, spec_parse_csi_cursor_position(buffer@)),
{
    let hi = buffer.len() - 1;
    let (cy, e1) = match parse_field_u16(buffer, 2, hi) {
        Some(p) => p,
        None => {
            return Err(ParseError::CouldNotParseEvent);
        },
    };
    if e1 >= hi {
        return Err(ParseError::CouldNotParseEvent);
    }
    let (cx, _e2) = match parse_field_u16(buffer, e1 + 1, hi) {
        Some(p) => p,
        None => {
            return Err(ParseError::CouldNotParseEvent);
        },
    };
    if cy == 0 || cx == 0 {
        return Err(ParseError::CouldNotParseEvent);
    }
    Ok(Some(InternalEvent::CursorPosition(cx - 1, cy - 1)))
}

/// Decodes an rxvt mouse report `ESC [ Cb ; Cx ; Cy ; M`.
pub fn parse_csi_rxvt_mouse(buffer: &[u8]) -> (r: Result<Option<InternalEvent>, ParseError>)
    requires
        buffer@.len() >= 3,
        buffer@[0] == 0x1B,
        buffer@[1] == 0x5B,
        buffer@[buffer@.len() - 1] == 0x4D,
    ensures
        outcome_is(r, spec_parse_csi_rxvt_mouse(buffer@)),
{
    let hi = buffer.len() - 1;
    let (cb, e1) = match parse_field_u16(buffer, 2, hi) {
        Some(p) => p,
        None => {
            return Err(ParseError::CouldNotParseEvent);
        },
    };
    if e1 >= hi {
        return Err(ParseError::CouldNotParseEvent);
    }
    let (cx, e2) = match parse_field_u16(buffer, e1 + 1, hi) {
        Some(p) => p,
        None => {
            return Err(ParseError::CouldNotParseEvent);
        },
    };
    if e2 >= hi {
        return Err(ParseError::CouldNotParseEvent);
    }
    let (cy, _e3) = match parse_field_u16(buffer, e2 + 1, hi) {
        Some(p) => p,
        None => {
            return Err(ParseError::CouldNotParseEvent);
        },
    };
    if cx == 0 || cy == 0 {
        return Err(ParseError::CouldNotParseEvent);
    }
    let x = cx - 1;
    let y = cy - 1;
    let mouse_input_event = if cb == 32 {
        MouseEvent::Press(MouseButton::Left, x, y)
    } else if cb == 33 {
        MouseEvent::Press(MouseButton::Middle, x, y)
    } else if cb == 34 {
        MouseEvent::Press(MouseButton::Right, x, y)
    } else if cb == 35 {
        MouseEvent::Release(x, y)
    } else if cb == 64 {
        MouseEvent::Hold(x, y)
    } else if cb == 96 || cb == 97 {
        MouseEvent::Press(MouseButton::WheelUp, x, y)
    } else {
        MouseEvent::Unknown
    };
    Ok(Some(InternalEvent::Input(InputEvent::Mouse(mouse_input_event))))
}

/// Decodes an X10 mouse report `ESC [ M Cb Cx Cy`.
pub fn parse_csi_x10_mouse(buffer: &[u8]) -> (r: Result<Option<InternalEvent>, ParseError>)
    requires
        buffer@.len() >= 3,
        buffer@[0] == 0x1B,
        buffer@[1] == 0x5B,
        buffer@[2] == 0x4D,
    ensures
        outcome_is(r, spec_parse_csi_x10_mouse(buffer@)),
{
    if buffer.len() < 6 {
        return Ok(None);
    }
    if buffer[4] < 33 || buffer[5] < 33 {
        return Err(ParseError::CouldNotParseEvent);
    }
    let cb = (((buffer[3] as u16) + 224) % 256) as u8;
    let x = (buffer[4] - 33) as u16;
    let y = (buffer[5] - 33) as u16;
    let low = cb & 3;
    let mouse_input_event = if low == 0 {
        if cb & 64 != 0 {
            MouseEvent::Press(MouseButton::WheelUp, x, y)
        } else {
            MouseEvent::Press(MouseButton::Left, x, y)
        }
    } else if low == 1 {
        if cb & 64 != 0 {
            MouseEvent::Press(MouseButton::WheelDown, x, y)
        } else {
            MouseEvent::Press(MouseButton::Middle, x, y)
        }
    } else if low == 2 {
        MouseEvent::Press(MouseButton::Right, x, y)
    } else {
        MouseEvent::Release(x, y)
    };
    Ok(Some(InternalEvent::Input(InputEvent::Mouse(mouse_input_event))))
}

/// Decodes an xterm SGR mouse report `ESC [ < Cb ; Cx ; Cy M|m`.
pub fn parse_csi_xterm_mouse(buffer: &[u8]) -> (r: Result<Option<InternalEvent>, ParseError>)
    requires
        buffer@.len() >= 3,
        buffer@[0] == 0x1B,
        buffer@[1] == 0x5B,
        buffer@[2] == 0x3C,
    ensures
        outcome_is(r, spec_parse_csi_xterm_mouse(buffer@)),
{
    let last = buffer[buffer.len() - 1];
    if last != 77 && last != 109 {
        return Ok(None);
    }
    let hi = buffer.len() - 1;
    let (cb, e1) = match parse_field_u16(buffer, 3, hi) {
        Some(p) => p,
        None => {
            return Err(ParseError::CouldNotParseEvent);
        },
    };
    if e1 >= hi {
        return Err(ParseError::CouldNotParseEvent);
    }
    let (cx, e2) = match parse_field_u16(buffer, e1 + 1, hi) {
        Some(p) => p,
        None => {
            return Err(ParseError::CouldNotParseEvent);
        },
    };
    if e2 >= hi {
        return Err(ParseError::CouldNotParseEvent);
    }
    let (cy, _e3) = match parse_field_u16(buffer, e2 + 1, hi) {
        Some(p) => p,
        None => {
            return Err(ParseError::CouldNotParseEvent);
        },
    };
    if cx == 0 || cy == 0 {
        return Err(ParseError::CouldNotParseEvent);
    }
    let x = cx - 1;
    let y = cy - 1;
    let input_event = if cb == 0 || cb == 1 || cb == 2 || cb == 64 || cb == 65 {
        let button = if cb == 0 {
            MouseButton::Left
        } else if cb == 1 {
            MouseButton::Middle
        } else if cb == 2 {
            MouseButton::Right
        } else if cb == 64 {
            MouseButton::WheelUp
        } else {
            MouseButton::WheelDown
        };
        if last == 77 {
            InputEvent::Mouse(MouseEvent::Press(button, x, y))
        } else {
            InputEvent::Mouse(MouseEvent::Release(x, y))
        }
    } else if cb == 32 {
        InputEvent::Mouse(MouseEvent::Hold(x, y))
    } else if cb == 3 {
        InputEvent::Mouse(MouseEvent::Release(x, y))
    } else {
        InputEvent::Unknown
    };
    Ok(Some(InternalEvent::Input(input_event)))
}

/// The byte length of a UTF-8 encoding announced by its lead byte, or 0
/// when the byte cannot lead an encoding (a stray continuation byte, or a
/// byte no encoding uses).
pub open spec fn utf8_width(b: u8) -> int {
    if b <= 0x7F {
        1
    } else if 0xC0 <= b <= 0xDF {
        2
    } else if 0xE0 <= b <= 0xEF {
        3
    } else if 0xF0 <= b <= 0xF7 {
        4
    } else {
        0
    }
}

/// Reading the first character of `t` from a stream: the lead byte announces
/// the width; a malformed lead or continuation byte can never become a
/// character, too few bytes may still grow into one, and a complete encoding
/// decodes to its scalar unless it is overlong or a surrogate.
pub open spec fn spec_parse_utf8_first(t: Seq<u8>) -> Result<Option<char>, ParseError>
    recommends
        t.len() > 0,
{
    let w = utf8_width(t[0]);
    if w == 0 {
        Err(ParseError::CouldNotParseEvent)
    } else if exists|j: int|
        1 <= j < w && j < t.len() && !vstd::utf8::is_continuation_byte(t[j]) {
        Err(ParseError::CouldNotParseEvent)
    } else if t.len() < w {
        Ok(None)
    } else if vstd::utf8::valid_first_scalar(t) {
        Ok(Some(vstd::utf8::decode_first_scalar(t) as char))
    } else {
        Err(ParseError::CouldNotParseEvent)
    }
}

/// Outcome of a buffer that begins with an ordinary character: its first
/// UTF-8 scalar as a `Char` key event.
pub open spec fn spec_parse_utf8_char(s: Seq<u8>) -> SpecOutcome {
    match spec_parse_utf8_first(s) {
        Ok(Some(c)) => ev_key(KeyEvent::Char(c)),
        Ok(None) => incomplete(),
        Err(e) => Err(e),
    }
}

/// Relies on `char::from_u32`: for every `u32` that is at most 0x10FFFF and
/// not a surrogate — that is, every Unicode scalar — it returns the `char`
/// with exactly that value.
#[verifier::external_body]
pub(crate) fn char_from_scalar(v: u32) -> (r: char)
    requires
        vstd::utf8::is_scalar(v),
    ensures
        r as u32 == v,
{
    char::from_u32(v).unwrap()
}

/// Reads the first UTF-8 character of the bytes of `s` from `from` on;
/// `Ok(None)` asks for more bytes.
fn parse_utf8_scalar(s: &[u8], from: usize) -> (r: Result<Option<char>, ParseError>)
    requires
        from < s@.len(),
    ensures
        r == spec_parse_utf8_first(s@.skip(from as int)),
{
    let ghost t = s@.skip(from as int);
    let n = s.len();
    let b0 = s[from];
    assert(t[0] == s@[from as int]);
    if b0 <= 0x7F {
        proof {
            assert(b0 & 0x7F == b0) by (bit_vector)
                requires
                    b0 <= 0x7F,
            ;
            assert(vstd::utf8::valid_first_scalar(t));
        }
        let c = char_from_scalar(b0 as u32);
        proof {
            vstd::utf8::char_u32_cast(c, b0 as u32);
        }
        return Ok(Some(c));
    }
    if b0 < 0xC0 {
        return Err(ParseError::CouldNotParseEvent);
    }
    if b0 <= 0xDF {
        if from + 1 >= n {
            return Ok(None);
        }
        let b1 = s[from + 1];
        assert(t[1] == s@[from + 1]);
        if b1 < 0x80 || b1 > 0xBF {
            return Err(ParseError::CouldNotParseEvent);
        }
        let c: u32 = (((b0 & 0x1F) as u32) << 6u32) | ((b1 & 0x3F) as u32);
        proof {
            assert(c <= 0x7FF) by (bit_vector)
                requires
                    c == (((b0 & 0x1F) as u32) << 6u32) | ((b1 & 0x3F) as u32),
            ;
        }
        if c < 0x80 {
            // An overlong two-byte encoding.
            return Err(ParseError::CouldNotParseEvent);
        }
        let r = char_from_scalar(c);
        proof {
            vstd::utf8::char_u32_cast(r, c);
        }
        return Ok(Some(r));
    }
    if b0 <= 0xEF {
        if from + 1 >= n {
            return Ok(None);
        }
        let b1 = s[from + 1];
        assert(t[1] == s@[from + 1]);
        if b1 < 0x80 || b1 > 0xBF {
            return Err(ParseError::CouldNotParseEvent);
        }
        if from + 2 >= n {
            return Ok(None);
        }
        let b2 = s[from + 2];
        assert(t[2] == s@[from + 2]);
        if b2 < 0x80 || b2 > 0xBF {
            return Err(ParseError::CouldNotParseEvent);
        }
        let c: u32 = (((b0 & 0x0F) as u32) << 12u32) | (((b1 & 0x3F) as u32) << 6u32) | ((b2
            & 0x3F) as u32);
        proof {
            assert(c <= 0xFFFF) by (bit_vector)
                requires
                    c == (((b0 & 0x0F) as u32) << 12u32) | (((b1 & 0x3F) as u32) << 6u32) | ((b2
                        & 0x3F) as u32),
            ;
        }
        if c < 0x800 {
            // An overlong three-byte encoding.
            return Err(ParseError::CouldNotParseEvent);
        }
        if 0xD800 <= c && c <= 0xDFFF {
            // A surrogate is not a Unicode scalar.
            return Err(ParseError::CouldNotParseEvent);
        }
        let r = char_from_scalar(c);
        proof {
            vstd::utf8::char_u32_cast(r, c);
        }
        return Ok(Some(r));
    }
    if b0 <= 0xF7 {
        if from + 1 >= n {
            return Ok(None);
        }
        let b1 = s[from + 1];
        assert(t[1] == s@[from + 1]);
        if b1 < 0x80 || b1 > 0xBF {
            return Err(ParseError::CouldNotParseEvent);
        }
        if from + 2 >= n {
            return Ok(None);
        }
        let b2 = s[from + 2];
        assert(t[2] == s@[from + 2]);
        if b2 < 0x80 || b2 > 0xBF {
            return Err(ParseError::CouldNotParseEvent);
        }
        if from + 3 >= n {
            return Ok(None);
        }
        let b3 = s[from + 3];
        assert(t[3] == s@[from + 3]);
        if b3 < 0x80 || b3 > 0xBF {
            return Err(ParseError::CouldNotParseEvent);
        }
        let c: u32 = (((b0 & 0x07) as u32) << 18u32) | (((b1 & 0x3F) as u32) << 12u32) | (((b2
            & 0x3F) as u32) << 6u32) | ((b3 & 0x3F) as u32);
        proof {
            assert(c <= 0x1FFFFF) by (bit_vector)
                requires
                    c == (((b0 & 0x07) as u32) << 18u32) | (((b1 & 0x3F) as u32) << 12u32) | (((b2
                        & 0x3F) as u32) << 6u32) | ((b3 & 0x3F) as u32),
            ;
        }
        if c < 0x10000 || c > 0x10FFFF {
            // Overlong, or past the last Unicode scalar.
            return Err(ParseError::CouldNotParseEvent);
        }
        let r = char_from_scalar(c);
        proof {
            vstd::utf8::char_u32_cast(r, c);
        }
        return Ok(Some(r));
    }
    Err(ParseError::CouldNotParseEvent)
}

/// Decodes the first UTF-8 character of the buffer into a `Char` key event.
pub fn parse_utf8_char(buffer: &[u8]) -> (r: Result<Option<InternalEvent>, ParseError>)
    requires
        buffer@.len() >= 1,
    ensures
        outcome_is(r, spec_parse_utf8_char(buffer@)),
{
    proof {
        assert(buffer@.skip(0) =~= buffer@);
    }
    match parse_utf8_scalar(buffer, 0) {
        Ok(Some(c)) => Ok(Some(InternalEvent::Input(InputEvent::Keyboard(KeyEvent::Char(c))))),
        Ok(None) => Ok(None),
        Err(e) => Err(e),
    }
}

/// The control character produced by Ctrl plus a letter: byte 0x01 maps to
/// 'a', and so on through 0x1A and 'z'.
pub open spec fn ctrl_letter(b: u8) -> char
    recommends
        1 <= b <= 26,
{
    ((b + 96) as u32) as char
}

/// The control character produced by Ctrl plus a digit key: byte 0x1C maps
/// to '4', and so on through 0x1F and '7'.
pub open spec fn ctrl_digit(b: u8) -> char
    recommends
        28 <= b <= 31,
{
    ((b + 24) as u32) as char
}

/// Outcome of a buffer that begins `ESC [`: the control sequence introducer
/// dispatches on its third byte; a numbered sequence accumulates parameter
/// bytes until a terminator in 64..=126 arrives and dispatches on it.
pub open spec fn spec_parse_csi(s: Seq<u8>) -> SpecOutcome
    recommends
        s.len() >= 2,
        s[0] == 0x1B,
        s[1] == 0x5B,
{
    if s.len() == 2 {
        incomplete()
    } else {
        let b = s[2];
        if b == 0x5B {
            if s.len() == 3 {
                incomplete()
            } else if 65 <= s[3] <= 69 {
                ev_key(KeyEvent::F((1 + s[3] - 65) as u8))
            } else {
                ev_input(InputEventView::Unknown)
            }
        } else if b == 68 {
            ev_key(KeyEvent::Left)
        } else if b == 67 {
            ev_key(KeyEvent::Right)
        } else if b == 65 {
            ev_key(KeyEvent::Up)
        } else if b == 66 {
            ev_key(KeyEvent::Down)
        } else if b == 72 {
            ev_key(KeyEvent::Home)
        } else if b == 70 {
            ev_key(KeyEvent::End)
        } else if b == 90 {
            ev_key(KeyEvent::BackTab)
        } else if b == 77 {
            spec_parse_csi_x10_mouse(s)
        } else if b == 60 {
            spec_parse_csi_xterm_mouse(s)
        } else if 48 <= b <= 57 {
            if s.len() == 3 {
                incomplete()
            } else {
                let last = s[s.len() - 1];
                if last < 64 || last > 126 {
                    incomplete()
                } else if last == 77 {
                    spec_parse_csi_rxvt_mouse(s)
                } else if last == 126 {
                    spec_parse_csi_special_key_code(s)
                } else if last == 82 {
                    spec_parse_csi_cursor_position(s)
                } else {
                    spec_parse_csi_modifier_key_code(s)
                }
            }
        } else {
            ev_input(InputEventView::Unknown)
        }
    }
}

/// What a buffer and the more-input hint decode to.  This is the whole
/// decoder: the result is a function of the two arguments and of nothing
/// else, so decoding is deterministic.
pub open spec fn spec_parse_event(s: Seq<u8>, input_available: bool) -> SpecOutcome {
    if s.len() == 0 {
        incomplete()
    } else {
        let b = s[0];
        if b == 0x1B {
            if s.len() == 1 {
                if input_available {
                    // Possibly the start of an escape sequence still arriving.
                    incomplete()
                } else {
                    ev_key(KeyEvent::Esc)
                }
            } else {
                let b1 = s[1];
                if b1 == 0x4F {
                    if s.len() == 2 {
                        incomplete()
                    } else if 80 <= s[2] <= 83 {
                        ev_key(KeyEvent::F((1 + s[2] - 80) as u8))
                    } else {
                        invalid()
                    }
                } else if b1 == 0x5B {
                    spec_parse_csi(s)
                } else if b1 == 0x1B {
                    ev_key(KeyEvent::Esc)
                } else {
                    match spec_parse_utf8_first(s.skip(1)) {
                        Ok(Some(c)) => ev_key(KeyEvent::Alt(c)),
                        Ok(None) => incomplete(),
                        Err(e) => Err(e),
                    }
                }
            }
        } else if b == 13 || b == 10 {
            ev_key(KeyEvent::Enter)
        } else if b == 9 {
            ev_key(KeyEvent::Tab)
        } else if b == 0x7F {
            ev_key(KeyEvent::Backspace)
        } else if 1 <= b <= 26 {
            ev_key(KeyEvent::Ctrl(ctrl_letter(b)))
        } else if 28 <= b <= 31 {
            ev_key(KeyEvent::Ctrl(ctrl_digit(b)))
        } else if b == 0 {
            ev_key(KeyEvent::Null)
        } else {
            spec_parse_utf8_char(s)
        }
    }
}

/// Decodes a control sequence that begins `ESC [`.
pub fn parse_csi(buffer: &[u8]) -> (r: Result<Option<InternalEvent>, ParseError>)
    requires
        buffer@.len() >= 2,
        buffer@[0] == 0x1B,
        buffer@[1] == 0x5B,
    ensures
        outcome_is(r, spec_parse_csi(buffer@)),
{
    let n = buffer.len();
    if n == 2 {
        return Ok(None);
    }
    let b = buffer[2];
    let input_event: InputEvent = if b == 0x5B {
        if n == 3 {
            return Ok(None);
        } else {
            let val = buffer[3];
            if 65 <= val && val <= 69 {
                InputEvent::Keyboard(KeyEvent::F(1 + (val - 65)))
            } else {
                InputEvent::Unknown
            }
        }
    } else if b == 68 {
        InputEvent::Keyboard(KeyEvent::Left)
    } else if b == 67 {
        InputEvent::Keyboard(KeyEvent::Right)
    } else if b == 65 {
        InputEvent::Keyboard(KeyEvent::Up)
    } else if b == 66 {
        InputEvent::Keyboard(KeyEvent::Down)
    } else if b == 72 {
        InputEvent::Keyboard(KeyEvent::Home)
    } else if b == 70 {
        InputEvent::Keyboard(KeyEvent::End)
    } else if b == 90 {
        InputEvent::Keyboard(KeyEvent::BackTab)
    } else if b == 77 {
        return parse_csi_x10_mouse(buffer);
    } else if b == 60 {
        return parse_csi_xterm_mouse(buffer);
    } else if 48 <= b && b <= 57 {
        if n == 3 {
            return Ok(None);
        } else {
            let last = buffer[n - 1];
            if last < 64 || last > 126 {
                return Ok(None);
            } else if last == 77 {
                return parse_csi_rxvt_mouse(buffer);
            } else if last == 126 {
                return parse_csi_special_key_code(buffer);
            } else if last == 82 {
                return parse_csi_cursor_position(buffer);
            } else {
                return parse_csi_modifier_key_code(buffer);
            }
        }
    } else {
        InputEvent::Unknown
    };
    Ok(Some(InternalEvent::Input(input_event)))
}

/// Decodes the accumulated buffer, with a hint that says whether more bytes
/// are immediately available on the source.  The hint is what tells a lone
/// Escape key press apart from the first byte of a sequence still arriving.
///
/// The result is pinned down by `spec_parse_event`, a function of the buffer
/// and the hint alone: decoding is deterministic.
pub fn parse_event(buffer: &[u8], input_available: bool) -> (r: Result<
    Option<InternalEvent>,
    ParseError,
>)
    ensures
        outcome_is(r, spec_parse_event(buffer@, input_available)),
{
    let n = buffer.len();
    if n == 0 {
        return Ok(None);
    }
    let b = buffer[0];
    if b == 0x1B {
        if n == 1 {
            if input_available {
                Ok(None)
            } else {
                Ok(Some(InternalEvent::Input(InputEvent::Keyboard(KeyEvent::Esc))))
            }
        } else {
            let b1 = buffer[1];
            if b1 == 0x4F {
                if n == 2 {
                    Ok(None)
                } else {
                    let val = buffer[2];
                    if 80 <= val && val <= 83 {
                        Ok(
                            Some(
                                InternalEvent::Input(
                                    InputEvent::Keyboard(KeyEvent::F(1 + (val - 80))),
                                ),
                            ),
                        )
                    } else {
                        Err(ParseError::CouldNotParseEvent)
                    }
                }
            } else if b1 == 0x5B {
                parse_csi(buffer)
            } else if b1 == 0x1B {
                Ok(Some(InternalEvent::Input(InputEvent::Keyboard(KeyEvent::Esc))))
            } else {
                match parse_utf8_scalar(buffer, 1) {
                    Ok(Some(c)) => Ok(
                        Some(InternalEvent::Input(InputEvent::Keyboard(KeyEvent::Alt(c)))),
                    ),
                    Ok(None) => Ok(None),
                    Err(e) => Err(e),
                }
            }
        }
    } else if b == 13 || b == 10 {
        Ok(Some(InternalEvent::Input(InputEvent::Keyboard(KeyEvent::Enter))))
    } else if b == 9 {
        Ok(Some(InternalEvent::Input(InputEvent::Keyboard(KeyEvent::Tab))))
    } else if b == 0x7F {
        Ok(Some(InternalEvent::Input(InputEvent::Keyboard(KeyEvent::Backspace))))
    } else if 1 <= b && b <= 26 {
        let c = char_from_scalar((b as u32) + 96);
        proof {
            vstd::utf8::char_u32_cast(c, ((b as u32) + 96) as u32);
        }
        Ok(Some(InternalEvent::Input(InputEvent::Keyboard(KeyEvent::Ctrl(c)))))
    } else if 28 <= b && b <= 31 {
        let c = char_from_scalar((b as u32) + 24);
        proof {
            vstd::utf8::char_u32_cast(c, ((b as u32) + 24) as u32);
        }
        Ok(Some(InternalEvent::Input(InputEvent::Keyboard(KeyEvent::Ctrl(c)))))
    } else if b == 0 {
        Ok(Some(InternalEvent::Input(InputEvent::Keyboard(KeyEvent::Null))))
    } else {
        parse_utf8_char(buffer)
    }
}

} // verus!
