//! Translation of native console input records into input events.
//!
//! On Windows the platform already parses the input stream into structured
//! records, so no byte-level decoding is needed; the records only have to be
//! mapped onto the same event vocabulary that the escape-sequence decoder
//! produces.  The record types here model, as plain values, exactly the
//! fields that the translation reads; the thin layer that obtains the native
//! records converts them into these types.

use crate::decode::{char_from_scalar, ctrl_digit, ctrl_letter};
use crate::events::{InputEvent, KeyEvent, MouseButton, MouseEvent};
use vstd::prelude::*;

verus! {

/// Virtual-key code of the Shift key.
pub const VK_SHIFT: u16 = 0x10;

/// Virtual-key code of the Ctrl key.
pub const VK_CONTROL: u16 = 0x11;

/// Virtual-key code of the Alt (menu) key.
pub const VK_MENU: u16 = 0x12;

/// Virtual-key code of the Backspace key.
pub const VK_BACK: u16 = 0x08;

/// Virtual-key code of the Escape key.
pub const VK_ESCAPE: u16 = 0x1B;

/// Virtual-key code of the Enter key.
pub const VK_RETURN: u16 = 0x0D;

/// Virtual-key code of the F1 key; F2 through F12 follow consecutively.
pub const VK_F1: u16 = 0x70;

/// Virtual-key code of the F12 key.
pub const VK_F12: u16 = 0x7B;

/// Virtual-key code of the Page Up key.
pub const VK_PRIOR: u16 = 0x21;

/// Virtual-key code of the Page Down key.
pub const VK_NEXT: u16 = 0x22;

/// Virtual-key code of the End key.
pub const VK_END: u16 = 0x23;

/// Virtual-key code of the Home key.
pub const VK_HOME: u16 = 0x24;

/// Virtual-key code of the left arrow key.
pub const VK_LEFT: u16 = 0x25;

/// Virtual-key code of the up arrow key.
pub const VK_UP: u16 = 0x26;

/// Virtual-key code of the right arrow key.
pub const VK_RIGHT: u16 = 0x27;

/// Virtual-key code of the down arrow key.
pub const VK_DOWN: u16 = 0x28;

/// Virtual-key code of the Insert key.
pub const VK_INSERT: u16 = 0x2D;

/// Virtual-key code of the Delete key.
pub const VK_DELETE: u16 = 0x2E;

/// Control-key-state bit for the right Alt key.
pub const RIGHT_ALT_PRESSED: u32 = 0x0001;

/// Control-key-state bit for the left Alt key.
pub const LEFT_ALT_PRESSED: u32 = 0x0002;

/// Control-key-state bit for the right Ctrl key.
pub const RIGHT_CTRL_PRESSED: u32 = 0x0004;

/// Control-key-state bit for the left Ctrl key.
pub const LEFT_CTRL_PRESSED: u32 = 0x0008;

/// Control-key-state bit for the Shift key.
pub const SHIFT_PRESSED: u32 = 0x0010;

/// A key record from the console: whether the key went down, its
/// virtual-key code, the character it carries, and the modifier-key state.
#[derive(Debug, PartialEq, Eq, Structural, Clone, Copy)]
pub struct KeyEventRecord {
    /// True for a key-down record, false for a key-up record.
    pub key_down: bool,
    /// The virtual-key code of the key.
    pub virtual_key_code: u16,
    /// The UTF-16 code unit carried by the record.
    pub unicode_char: u16,
    /// The state of the modifier keys, as a bit mask.
    pub control_key_state: u32,
}

/// The button state of a mouse record.
#[derive(Debug, PartialEq, Eq, Structural, Clone, Copy)]
pub enum ButtonState {
    /// No button is pressed.
    Release,
    /// The leftmost button is pressed.
    FromLeft1stButtonPressed,
    /// The rightmost button is pressed.
    RightmostButtonPressed,
    /// The second button from the left is pressed.
    FromLeft2ndButtonPressed,
    /// The third button from the left is pressed.
    FromLeft3rdButtonPressed,
    /// The fourth button from the left is pressed.
    FromLeft4thButtonPressed,
    /// The wheel rotated backward, toward the user.
    Negative,
}

/// The kind of a mouse record.
#[derive(Debug, PartialEq, Eq, Structural, Clone, Copy)]
pub enum EventFlags {
    /// A button was pressed or released.
    PressOrRelease,
    /// The mouse moved.
    MouseMoved,
    /// The second click of a double-click.
    DoubleClick,
    /// The vertical wheel rotated.
    MouseWheeled,
    /// The horizontal wheel rotated.
    MouseHwheeled,
}

/// A mouse record from the console.
#[derive(Debug, PartialEq, Eq, Structural, Clone, Copy)]
pub struct MouseEventRecord {
    /// The column of the mouse position; the upper left is (0, 0).
    pub mouse_position_x: i16,
    /// The row of the mouse position.
    pub mouse_position_y: i16,
    /// Which buttons are down, or the wheel direction.
    pub button_state: ButtonState,
    /// What kind of mouse record this is.
    pub event_flags: EventFlags,
}

/// A native console input record, dispatched on its type.
#[derive(Debug, PartialEq, Eq, Structural, Clone, Copy)]
pub enum InputRecord {
    /// A keyboard record.
    Key(KeyEventRecord),
    /// A mouse record.
    Mouse(MouseEventRecord),
    /// The screen buffer was resized; ignored.
    WindowBufferSizeEvent,
    /// The console gained or lost focus; ignored.
    FocusEvent,
    /// A reserved menu record; ignored.
    MenuEvent,
}

/// True when the modifier state has any of the bits of `mask` set.
pub open spec fn spec_has_state(state: u32, mask: u32) -> bool {
    state & mask != 0
}

/// A coordinate read as an unsigned column or row number, with the wrap
/// that reinterpreting the signed value imposes.
pub open spec fn coord_u16(v: i16) -> u16 {
    if v >= 0 {
        v as u16
    } else {
        (v + 0x10000) as u16
    }
}

/// True for the ASCII letters.
pub open spec fn is_ascii_alpha(b: u8) -> bool {
    (65 <= b <= 90) || (97 <= b <= 122)
}

/// The key event of a key record: modifier-only presses yield nothing;
/// named keys map directly; arrows honour Ctrl and Shift; character keys
/// honour Alt (the command letter), Ctrl (the same control-character
/// convention as the byte-stream decoder), and Shift+Tab.
pub open spec fn spec_parse_key_event_record(k: KeyEventRecord) -> Option<KeyEvent> {
    let vk = k.virtual_key_code;
    if vk == VK_SHIFT || vk == VK_CONTROL || vk == VK_MENU {
        None
    } else if vk == VK_BACK {
        Some(KeyEvent::Backspace)
    } else if vk == VK_ESCAPE {
        Some(KeyEvent::Esc)
    } else if vk == VK_RETURN {
        Some(KeyEvent::Enter)
    } else if VK_F1 <= vk <= VK_F12 {
        Some(KeyEvent::F((vk - 111) as u8))
    } else if vk == VK_LEFT || vk == VK_UP || vk == VK_RIGHT || vk == VK_DOWN {
        let ctrl = spec_has_state(k.control_key_state, RIGHT_CTRL_PRESSED | LEFT_CTRL_PRESSED);
        let shift = spec_has_state(k.control_key_state, SHIFT_PRESSED);
        if vk == VK_LEFT {
            if ctrl {
                Some(KeyEvent::CtrlLeft)
            } else if shift {
                Some(KeyEvent::ShiftLeft)
            } else {
                Some(KeyEvent::Left)
            }
        } else if vk == VK_UP {
            if ctrl {
                Some(KeyEvent::CtrlUp)
            } else if shift {
                Some(KeyEvent::ShiftUp)
            } else {
                Some(KeyEvent::Up)
            }
        } else if vk == VK_RIGHT {
            if ctrl {
                Some(KeyEvent::CtrlRight)
            } else if shift {
                Some(KeyEvent::ShiftRight)
            } else {
                Some(KeyEvent::Right)
            }
        } else {
            if ctrl {
                Some(KeyEvent::CtrlDown)
            } else if shift {
                Some(KeyEvent::ShiftDown)
            } else {
                Some(KeyEvent::Down)
            }
        }
    } else if vk == VK_PRIOR {
        Some(KeyEvent::PageUp)
    } else if vk == VK_NEXT {
        Some(KeyEvent::PageDown)
    } else if vk == VK_HOME {
        Some(KeyEvent::Home)
    } else if vk == VK_END {
        Some(KeyEvent::End)
    } else if vk == VK_DELETE {
        Some(KeyEvent::Delete)
    } else if vk == VK_INSERT {
        Some(KeyEvent::Insert)
    } else {
        let ch = k.unicode_char;
        if ch < 255 {
            if spec_has_state(k.control_key_state, LEFT_ALT_PRESSED | RIGHT_ALT_PRESSED) {
                // With Alt held down, the pressed command key is in the
                // virtual-key code, not in the character.
                let command = (vk & 0xFF) as u8;
                if is_ascii_alpha(command) {
                    Some(KeyEvent::Alt(((command as u32) as char)))
                } else {
                    None
                }
            } else if spec_has_state(k.control_key_state, LEFT_CTRL_PRESSED | RIGHT_CTRL_PRESSED) {
                let b = ch as u8;
                if 1 <= b <= 26 {
                    Some(KeyEvent::Ctrl(ctrl_letter(b)))
                } else if 28 <= b <= 31 {
                    Some(KeyEvent::Ctrl(ctrl_digit(b)))
                } else {
                    None
                }
            } else if spec_has_state(k.control_key_state, SHIFT_PRESSED) && ch == 9 {
                Some(KeyEvent::BackTab)
            } else if ch == 9 {
                Some(KeyEvent::Tab)
            } else {
                Some(KeyEvent::Char(((ch as u32) as char)))
            }
        } else {
            None
        }
    }
}

/// The mouse event of a mouse record: single presses and releases by
/// button, drags as `Hold` while any button is down, the vertical wheel by
/// rotation sign; double clicks and the horizontal wheel have no terminal
/// equivalent and yield nothing.
pub open spec fn spec_parse_mouse_event_record(m: MouseEventRecord) -> Option<MouseEvent> {
    let x = coord_u16(m.mouse_position_x);
    let y = coord_u16(m.mouse_position_y);
    match m.event_flags {
        EventFlags::PressOrRelease => match m.button_state {
            ButtonState::Release => Some(MouseEvent::Release(x, y)),
            ButtonState::FromLeft1stButtonPressed => Some(
                MouseEvent::Press(MouseButton::Left, x, y),
            ),
            ButtonState::RightmostButtonPressed => Some(
                MouseEvent::Press(MouseButton::Right, x, y),
            ),
            ButtonState::FromLeft2ndButtonPressed => Some(
                MouseEvent::Press(MouseButton::Middle, x, y),
            ),
            _ => None,
        },
        EventFlags::MouseMoved => if !(m.button_state is Release) {
            Some(MouseEvent::Hold(x, y))
        } else {
            None
        },
        EventFlags::MouseWheeled => if !(m.button_state is Negative) {
            Some(MouseEvent::Press(MouseButton::WheelUp, x, y))
        } else {
            Some(MouseEvent::Press(MouseButton::WheelDown, x, y))
        },
        EventFlags::DoubleClick => None,
        EventFlags::MouseHwheeled => None,
    }
}

/// The input event of a whole record: key-up records and pure modifier
/// presses are dropped, and resize, focus and menu records are ignored.
pub open spec fn spec_translate_input_record(record: InputRecord) -> Option<InputEvent> {
    match record {
        InputRecord::Key(k) => if k.key_down {
            match spec_parse_key_event_record(k) {
                Some(e) => Some(InputEvent::Keyboard(e)),
                None => None,
            }
        } else {
            None
        },
        InputRecord::Mouse(m) => match spec_parse_mouse_event_record(m) {
            Some(e) => Some(InputEvent::Mouse(e)),
            None => None,
        },
        InputRecord::WindowBufferSizeEvent => None,
        InputRecord::FocusEvent => None,
        InputRecord::MenuEvent => None,
    }
}

/// Maps a key record to a key event.
pub fn parse_key_event_record(key_event: &KeyEventRecord) -> (r: Option<KeyEvent>)
    ensures
        r == spec_parse_key_event_record(*key_event),
{
    let vk = key_event.virtual_key_code;
    if vk == VK_SHIFT || vk == VK_CONTROL || vk == VK_MENU {
        None
    } else if vk == VK_BACK {
        Some(KeyEvent::Backspace)
    } else if vk == VK_ESCAPE {
        Some(KeyEvent::Esc)
    } else if vk == VK_RETURN {
        Some(KeyEvent::Enter)
    } else if VK_F1 <= vk && vk <= VK_F12 {
        Some(KeyEvent::F((vk - 111) as u8))
    } else if vk == VK_LEFT || vk == VK_UP || vk == VK_RIGHT || vk == VK_DOWN {
        let state = key_event.control_key_state;
        let ctrl_pressed = state & (RIGHT_CTRL_PRESSED | LEFT_CTRL_PRESSED) != 0;
        let shift_pressed = state & SHIFT_PRESSED != 0;
        if vk == VK_LEFT {
            if ctrl_pressed {
                Some(KeyEvent::CtrlLeft)
            } else if shift_pressed {
                Some(KeyEvent::ShiftLeft)
            } else {
                Some(KeyEvent::Left)
            }
        } else if vk == VK_UP {
            if ctrl_pressed {
                Some(KeyEvent::CtrlUp)
            } else if shift_pressed {
                Some(KeyEvent::ShiftUp)
            } else {
                Some(KeyEvent::Up)
            }
        } else if vk == VK_RIGHT {
            if ctrl_pressed {
                Some(KeyEvent::CtrlRight)
            } else if shift_pressed {
                Some(KeyEvent::ShiftRight)
            } else {
                Some(KeyEvent::Right)
            }
        } else {
            if ctrl_pressed {
                Some(KeyEvent::CtrlDown)
            } else if shift_pressed {
                Some(KeyEvent::ShiftDown)
            } else {
                Some(KeyEvent::Down)
            }
        }
    } else if vk == VK_PRIOR {
        Some(KeyEvent::PageUp)
    } else if vk == VK_NEXT {
        Some(KeyEvent::PageDown)
    } else if vk == VK_HOME {
        Some(KeyEvent::Home)
    } else if vk == VK_END {
        Some(KeyEvent::End)
    } else if vk == VK_DELETE {
        Some(KeyEvent::Delete)
    } else if vk == VK_INSERT {
        Some(KeyEvent::Insert)
    } else {
        let character_raw = key_event.unicode_char;
        if character_raw < 255 {
            let state = key_event.control_key_state;
            if state & (LEFT_ALT_PRESSED | RIGHT_ALT_PRESSED) != 0 {
                // With Alt held down the system reports the command key in
                // the virtual-key code rather than as a character.
                let command = (vk & 0xFF) as u8;
                if (65 <= command && command <= 90) || (97 <= command && command <= 122) {
                    let c = char_from_scalar(command as u32);
                    proof {
                        vstd::utf8::char_u32_cast(c, command as u32);
                    }
                    Some(KeyEvent::Alt(c))
                } else {
                    None
                }
            } else if state & (LEFT_CTRL_PRESSED | RIGHT_CTRL_PRESSED) != 0 {
                let b = character_raw as u8;
                if 1 <= b && b <= 26 {
                    let c = char_from_scalar((b as u32) + 96);
                    proof {
                        vstd::utf8::char_u32_cast(c, ((b as u32) + 96) as u32);
                    }
                    Some(KeyEvent::Ctrl(c))
                } else if 28 <= b && b <= 31 {
                    let c = char_from_scalar((b as u32) + 24);
                    proof {
                        vstd::utf8::char_u32_cast(c, ((b as u32) + 24) as u32);
                    }
                    Some(KeyEvent::Ctrl(c))
                } else {
                    None
                }
            } else if state & SHIFT_PRESSED != 0 && character_raw == 9 {
                Some(KeyEvent::BackTab)
            } else if character_raw == 9 {
                Some(KeyEvent::Tab)
            } else {
                let c = char_from_scalar(character_raw as u32);
                proof {
                    vstd::utf8::char_u32_cast(c, character_raw as u32);
                }
                Some(KeyEvent::Char(c))
            }
        } else {
            None
        }
    }
}

/// Maps a mouse record to a mouse event.
pub fn parse_mouse_event_record(event: &MouseEventRecord) -> (r: Option<MouseEvent>)
    ensures
        r == spec_parse_mouse_event_record(*event),
{
    let x: u16 = if event.mouse_position_x >= 0 {
        event.mouse_position_x as u16
    } else {
        ((event.mouse_position_x as i32) + 0x10000) as u16
    };
    let y: u16 = if event.mouse_position_y >= 0 {
        event.mouse_position_y as u16
    } else {
        ((event.mouse_position_y as i32) + 0x10000) as u16
    };
    match event.event_flags {
        EventFlags::PressOrRelease => match event.button_state {
            ButtonState::Release => Some(MouseEvent::Release(x, y)),
            ButtonState::FromLeft1stButtonPressed => Some(
                MouseEvent::Press(MouseButton::Left, x, y),
            ),
            ButtonState::RightmostButtonPressed => Some(
                MouseEvent::Press(MouseButton::Right, x, y),
            ),
            ButtonState::FromLeft2ndButtonPressed => Some(
                MouseEvent::Press(MouseButton::Middle, x, y),
            ),
            _ => None,
        },
        EventFlags::MouseMoved => {
            if !matches!(event.button_state, ButtonState::Release) {
                Some(MouseEvent::Hold(x, y))
            } else {
                None
            }
        },
        EventFlags::MouseWheeled => {
            if !matches!(event.button_state, ButtonState::Negative) {
                Some(MouseEvent::Press(MouseButton::WheelUp, x, y))
            } else {
                Some(MouseEvent::Press(MouseButton::WheelDown, x, y))
            }
        },
        EventFlags::DoubleClick => None,
        EventFlags::MouseHwheeled => None,
    }
}

/// Wraps a key record's key event as an input event, dropping key-up
/// records.
pub fn handle_key_event(key_event: &KeyEventRecord) -> (r: Option<InputEvent>)
    ensures
        r == (if key_event.key_down {
            match spec_parse_key_event_record(*key_event) {
                Some(e) => Some(InputEvent::Keyboard(e)),
                None => None::<InputEvent>,
            }
        } else {
            None::<InputEvent>
        }),
{
    if key_event.key_down {
        match parse_key_event_record(key_event) {
            Some(e) => Some(InputEvent::Keyboard(e)),
            None => None,
        }
    } else {
        None
    }
}

/// Wraps a mouse record's mouse event as an input event.
pub fn handle_mouse_event(mouse_event: &MouseEventRecord) -> (r: Option<InputEvent>)
    ensures
        r == (match spec_parse_mouse_event_record(*mouse_event) {
            Some(e) => Some(InputEvent::Mouse(e)),
            None => None::<InputEvent>,
        }),
{
    match parse_mouse_event_record(mouse_event) {
        Some(e) => Some(InputEvent::Mouse(e)),
        None => None,
    }
}

/// Maps one whole console input record to at most one input event.
pub fn translate_input_record(record: &InputRecord) -> (r: Option<InputEvent>)
    ensures
        r == spec_translate_input_record(*record),
{
    match record {
        InputRecord::Key(k) => handle_key_event(k),
        InputRecord::Mouse(m) => handle_mouse_event(m),
        InputRecord::WindowBufferSizeEvent => None,
        InputRecord::FocusEvent => None,
        InputRecord::MenuEvent => None,
    }
}

} // verus!
