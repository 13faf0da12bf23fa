use crossterm_input::decode::{
    parse_csi, parse_csi_cursor_position, parse_csi_modifier_key_code, parse_csi_rxvt_mouse,
    parse_csi_special_key_code, parse_csi_x10_mouse, parse_csi_xterm_mouse, parse_event,
    parse_utf8_char,
};
use crossterm_input::{InputEvent, InternalEvent, KeyEvent, MouseButton, MouseEvent};

#[test]
fn test_esc_key() {
    assert_eq!(
        parse_event("\x1B".as_bytes(), false).unwrap(),
        Some(InternalEvent::Input(InputEvent::Keyboard(KeyEvent::Esc))),
    );
}

#[test]
fn test_possible_esc_sequence() {
    assert_eq!(parse_event("\x1B".as_bytes(), true).unwrap(), None,);
}

#[test]
fn test_parse_event_subsequent_calls() {
    // Checks that the right slice reaches every sub-parser.

    // parse_csi_cursor_position
    assert_eq!(
        parse_event("\x1B[20;10R".as_bytes(), false).unwrap(),
        Some(InternalEvent::CursorPosition(9, 19))
    );

    // parse_csi
    assert_eq!(
        parse_event("\x1B[D".as_bytes(), false).unwrap(),
        Some(InternalEvent::Input(InputEvent::Keyboard(KeyEvent::Left))),
    );

    // parse_csi_modifier_key_code
    assert_eq!(
        parse_event("\x1B[2D".as_bytes(), false).unwrap(),
        Some(InternalEvent::Input(InputEvent::Keyboard(KeyEvent::ShiftLeft))),
    );

    // parse_csi_special_key_code
    assert_eq!(
        parse_event("\x1B[3~".as_bytes(), false).unwrap(),
        Some(InternalEvent::Input(InputEvent::Keyboard(KeyEvent::Delete))),
    );

    // parse_csi_rxvt_mouse
    assert_eq!(
        parse_event("\x1B[32;30;40;M".as_bytes(), false).unwrap(),
        Some(InternalEvent::Input(InputEvent::Mouse(MouseEvent::Press(
            MouseButton::Left,
            29,
            39
        ))))
    );

    // parse_csi_x10_mouse
    assert_eq!(
        parse_event("\x1B[M0\x60\x70".as_bytes(), false).unwrap(),
        Some(InternalEvent::Input(InputEvent::Mouse(MouseEvent::Press(
            MouseButton::Left,
            63,
            79
        ))))
    );

    // parse_csi_xterm_mouse
    assert_eq!(
        parse_event("\x1B[<0;20;10;M".as_bytes(), false).unwrap(),
        Some(InternalEvent::Input(InputEvent::Mouse(MouseEvent::Press(
            MouseButton::Left,
            19,
            9
        ))))
    );

    // parse_utf8_char
    assert_eq!(
        parse_event("Ž".as_bytes(), false).unwrap(),
        Some(InternalEvent::Input(InputEvent::Keyboard(KeyEvent::Char('Ž')))),
    );
}

#[test]
fn test_parse_event() {
    assert_eq!(
        parse_event("\t".as_bytes(), false).unwrap(),
        Some(InternalEvent::Input(InputEvent::Keyboard(KeyEvent::Tab))),
    );
}

#[test]
fn test_parse_csi_cursor_position() {
    assert_eq!(
        parse_csi_cursor_position("\x1B[20;10R".as_bytes()).unwrap(),
        Some(InternalEvent::CursorPosition(9, 19))
    );
}

#[test]
fn test_parse_csi() {
    assert_eq!(
        parse_csi("\x1B[D".as_bytes()).unwrap(),
        Some(InternalEvent::Input(InputEvent::Keyboard(KeyEvent::Left))),
    );
}

#[test]
fn test_parse_csi_modifier_key_code() {
    assert_eq!(
        parse_csi_modifier_key_code("\x1B[2D".as_bytes()).unwrap(),
        Some(InternalEvent::Input(InputEvent::Keyboard(KeyEvent::ShiftLeft))),
    );
}

#[test]
fn test_parse_csi_special_key_code() {
    assert_eq!(
        parse_csi_special_key_code("\x1B[3~".as_bytes()).unwrap(),
        Some(InternalEvent::Input(InputEvent::Keyboard(KeyEvent::Delete))),
    );
}

#[test]
fn test_parse_csi_special_key_code_multiple_values_not_supported() {
    assert_eq!(
        parse_csi_special_key_code("\x1B[3;2~".as_bytes()).unwrap(),
        Some(InternalEvent::Input(InputEvent::Unknown)),
    );
}

#[test]
fn test_parse_csi_rxvt_mouse() {
    assert_eq!(
        parse_csi_rxvt_mouse("\x1B[32;30;40;M".as_bytes()).unwrap(),
        Some(InternalEvent::Input(InputEvent::Mouse(MouseEvent::Press(
            MouseButton::Left,
            29,
            39
        ))))
    );
}

#[test]
fn test_parse_csi_x10_mouse() {
    assert_eq!(
        parse_csi_x10_mouse("\x1B[M0\x60\x70".as_bytes()).unwrap(),
        Some(InternalEvent::Input(InputEvent::Mouse(MouseEvent::Press(
            MouseButton::Left,
            63,
            79
        ))))
    );
}

#[test]
fn test_parse_csi_xterm_mouse() {
    assert_eq!(
        parse_csi_xterm_mouse("\x1B[<0;20;10;M".as_bytes()).unwrap(),
        Some(InternalEvent::Input(InputEvent::Mouse(MouseEvent::Press(
            MouseButton::Left,
            19,
            9
        ))))
    );
    assert_eq!(
        parse_csi_xterm_mouse("\x1B[<0;20;10M".as_bytes()).unwrap(),
        Some(InternalEvent::Input(InputEvent::Mouse(MouseEvent::Press(
            MouseButton::Left,
            19,
            9
        ))))
    );
    assert_eq!(
        parse_csi_xterm_mouse("\x1B[<0;20;10;m".as_bytes()).unwrap(),
        Some(InternalEvent::Input(InputEvent::Mouse(MouseEvent::Release(19, 9))))
    );
    assert_eq!(
        parse_csi_xterm_mouse("\x1B[<0;20;10m".as_bytes()).unwrap(),
        Some(InternalEvent::Input(InputEvent::Mouse(MouseEvent::Release(19, 9))))
    );
}

#[test]
fn test_utf8() {
    // Valid ASCII.
    assert_eq!(
        parse_utf8_char("a".as_bytes()).unwrap(),
        Some(InternalEvent::Input(InputEvent::Keyboard(KeyEvent::Char('a')))),
    );

    // Valid 2-octet sequence.
    assert_eq!(
        parse_utf8_char(&[0xC3, 0xB1]).unwrap(),
        Some(InternalEvent::Input(InputEvent::Keyboard(KeyEvent::Char('ñ')))),
    );

    // Invalid 2-octet sequence.
    assert!(parse_utf8_char(&[0xC3, 0x28]).is_err());

    // Invalid sequence identifier.
    assert!(parse_utf8_char(&[0xA0, 0xA1]).is_err());

    // Valid 3-octet sequence.
    assert_eq!(
        parse_utf8_char(&[0xE2, 0x81, 0xA1]).unwrap(),
        Some(InternalEvent::Input(InputEvent::Keyboard(KeyEvent::Char('\u{2061}')))),
    );

    // Invalid 3-octet sequence (in the 2nd octet).
    assert!(parse_utf8_char(&[0xE2, 0x28, 0xA1]).is_err());

    // Invalid 3-octet sequence (in the 3rd octet).
    assert!(parse_utf8_char(&[0xE2, 0x82, 0x28]).is_err());

    // Valid 4-octet sequence.
    assert_eq!(
        parse_utf8_char(&[0xF0, 0x90, 0x8C, 0xBC]).unwrap(),
        Some(InternalEvent::Input(InputEvent::Keyboard(KeyEvent::Char('𐌼')))),
    );

    // Invalid 4-octet sequence (in the 2nd octet).
    assert!(parse_utf8_char(&[0xF0, 0x28, 0x8C, 0xBC]).is_err());

    // Invalid 4-octet sequence (in the 3rd octet).
    assert!(parse_utf8_char(&[0xF0, 0x90, 0x28, 0xBC]).is_err());

    // Invalid 4-octet sequence (in the 4th octet).
    assert!(parse_utf8_char(&[0xF0, 0x28, 0x8C, 0x28]).is_err());
}

#[test]
fn test_utf8_string_decodes_back_to_itself() {
    for c in "abcéŷ¤£€ù%323".chars() {
        let mut bytes = [0u8; 4];
        let encoded = c.encode_utf8(&mut bytes);
        assert_eq!(
            parse_event(encoded.as_bytes(), false).unwrap(),
            Some(InternalEvent::Input(InputEvent::Keyboard(KeyEvent::Char(c)))),
        );
    }
}

#[test]
fn test_utf8_multibyte_waits_for_continuation() {
    assert_eq!(parse_event(&[0xC3], false).unwrap(), None);
    assert_eq!(parse_event(&[0xE2, 0x81], true).unwrap(), None);
    assert_eq!(parse_event(&[0xF0, 0x90, 0x8C], false).unwrap(), None);
}

#[test]
fn test_ss3_function_keys() {
    for (i, c) in [b'P', b'Q', b'R', b'S'].iter().enumerate() {
        assert_eq!(
            parse_event(&[0x1B, b'O', *c], false).unwrap(),
            Some(InternalEvent::Input(InputEvent::Keyboard(KeyEvent::F(1 + i as u8)))),
        );
    }
    assert_eq!(parse_event(&[0x1B, b'O'], false).unwrap(), None);
    assert!(parse_event(&[0x1B, b'O', b'T'], false).is_err());
}

#[test]
fn test_double_escape_is_esc() {
    assert_eq!(
        parse_event(&[0x1B, 0x1B], false).unwrap(),
        Some(InternalEvent::Input(InputEvent::Keyboard(KeyEvent::Esc))),
    );
}

#[test]
fn test_alt_character() {
    assert_eq!(
        parse_event(&[0x1B, b'a'], false).unwrap(),
        Some(InternalEvent::Input(InputEvent::Keyboard(KeyEvent::Alt('a')))),
    );
    // A multi-byte character after ESC waits for its continuation bytes.
    assert_eq!(parse_event(&[0x1B, 0xC3], false).unwrap(), None);
    assert_eq!(
        parse_event(&[0x1B, 0xC3, 0xB1], false).unwrap(),
        Some(InternalEvent::Input(InputEvent::Keyboard(KeyEvent::Alt('ñ')))),
    );
}

#[test]
fn test_plain_keys() {
    assert_eq!(
        parse_event(&[b'\r'], false).unwrap(),
        Some(InternalEvent::Input(InputEvent::Keyboard(KeyEvent::Enter))),
    );
    assert_eq!(
        parse_event(&[b'\n'], false).unwrap(),
        Some(InternalEvent::Input(InputEvent::Keyboard(KeyEvent::Enter))),
    );
    assert_eq!(
        parse_event(&[0x7F], false).unwrap(),
        Some(InternalEvent::Input(InputEvent::Keyboard(KeyEvent::Backspace))),
    );
    assert_eq!(
        parse_event(&[0x00], false).unwrap(),
        Some(InternalEvent::Input(InputEvent::Keyboard(KeyEvent::Null))),
    );
}

#[test]
fn test_ctrl_characters() {
    assert_eq!(
        parse_event(&[0x01], false).unwrap(),
        Some(InternalEvent::Input(InputEvent::Keyboard(KeyEvent::Ctrl('a')))),
    );
    assert_eq!(
        parse_event(&[0x1A], false).unwrap(),
        Some(InternalEvent::Input(InputEvent::Keyboard(KeyEvent::Ctrl('z')))),
    );
    assert_eq!(
        parse_event(&[0x1C], false).unwrap(),
        Some(InternalEvent::Input(InputEvent::Keyboard(KeyEvent::Ctrl('4')))),
    );
    assert_eq!(
        parse_event(&[0x1F], false).unwrap(),
        Some(InternalEvent::Input(InputEvent::Keyboard(KeyEvent::Ctrl('7')))),
    );
}

#[test]
fn test_csi_arrows_and_named_keys() {
    let cases: [(&str, KeyEvent); 7] = [
        ("\x1B[A", KeyEvent::Up),
        ("\x1B[B", KeyEvent::Down),
        ("\x1B[C", KeyEvent::Right),
        ("\x1B[D", KeyEvent::Left),
        ("\x1B[H", KeyEvent::Home),
        ("\x1B[F", KeyEvent::End),
        ("\x1B[Z", KeyEvent::BackTab),
    ];
    for (bytes, key) in cases {
        assert_eq!(
            parse_event(bytes.as_bytes(), false).unwrap(),
            Some(InternalEvent::Input(InputEvent::Keyboard(key))),
        );
    }
}

#[test]
fn test_csi_special_key_table() {
    let cases: [(&str, KeyEvent); 12] = [
        ("\x1B[1~", KeyEvent::Home),
        ("\x1B[2~", KeyEvent::Insert),
        ("\x1B[4~", KeyEvent::End),
        ("\x1B[5~", KeyEvent::PageUp),
        ("\x1B[6~", KeyEvent::PageDown),
        ("\x1B[7~", KeyEvent::Home),
        ("\x1B[8~", KeyEvent::End),
        ("\x1B[11~", KeyEvent::F(1)),
        ("\x1B[15~", KeyEvent::F(5)),
        ("\x1B[17~", KeyEvent::F(6)),
        ("\x1B[21~", KeyEvent::F(10)),
        ("\x1B[24~", KeyEvent::F(12)),
    ];
    for (bytes, key) in cases {
        assert_eq!(
            parse_event(bytes.as_bytes(), false).unwrap(),
            Some(InternalEvent::Input(InputEvent::Keyboard(key))),
        );
    }
    // An unassigned code is recognized but unclassifiable.
    assert_eq!(
        parse_event("\x1B[25~".as_bytes(), false).unwrap(),
        Some(InternalEvent::Input(InputEvent::Unknown)),
    );
}

#[test]
fn test_csi_modifier_arrows() {
    let cases: [(&str, KeyEvent); 8] = [
        ("\x1B[5A", KeyEvent::CtrlUp),
        ("\x1B[5B", KeyEvent::CtrlDown),
        ("\x1B[5C", KeyEvent::CtrlRight),
        ("\x1B[5D", KeyEvent::CtrlLeft),
        ("\x1B[2A", KeyEvent::ShiftUp),
        ("\x1B[2B", KeyEvent::ShiftDown),
        ("\x1B[2C", KeyEvent::ShiftRight),
        ("\x1B[2D", KeyEvent::ShiftLeft),
    ];
    for (bytes, key) in cases {
        assert_eq!(
            parse_event(bytes.as_bytes(), false).unwrap(),
            Some(InternalEvent::Input(InputEvent::Keyboard(key))),
        );
    }
}

#[test]
fn test_csi_numbered_sequence_waits_for_terminator() {
    assert_eq!(parse_event("\x1B[".as_bytes(), true).unwrap(), None);
    assert_eq!(parse_event("\x1B[3".as_bytes(), true).unwrap(), None);
    assert_eq!(parse_event("\x1B[3;".as_bytes(), true).unwrap(), None);
    assert_eq!(parse_event("\x1B[32;30".as_bytes(), true).unwrap(), None);
}

#[test]
fn test_csi_alternate_f_keys() {
    assert_eq!(
        parse_event("\x1B[[A".as_bytes(), false).unwrap(),
        Some(InternalEvent::Input(InputEvent::Keyboard(KeyEvent::F(1)))),
    );
    assert_eq!(
        parse_event("\x1B[[E".as_bytes(), false).unwrap(),
        Some(InternalEvent::Input(InputEvent::Keyboard(KeyEvent::F(5)))),
    );
    assert_eq!(
        parse_event("\x1B[[F".as_bytes(), false).unwrap(),
        Some(InternalEvent::Input(InputEvent::Unknown)),
    );
}

#[test]
fn test_x10_mouse_wheel_and_release() {
    // Wheel up: button bits 0 with bit 6 set (cb byte 96 = 32 + 64).
    assert_eq!(
        parse_event(&[0x1B, b'[', b'M', 96, 33, 33], false).unwrap(),
        Some(InternalEvent::Input(InputEvent::Mouse(MouseEvent::Press(
            MouseButton::WheelUp,
            0,
            0
        ))))
    );
    // Release: low bits 3 (cb byte 35).
    assert_eq!(
        parse_event(&[0x1B, b'[', b'M', 35, 40, 50], false).unwrap(),
        Some(InternalEvent::Input(InputEvent::Mouse(MouseEvent::Release(7, 17))))
    );
    // Too few bytes: wait.
    assert_eq!(parse_event(&[0x1B, b'[', b'M', 32, 40], true).unwrap(), None);
    // A coordinate below the offset is malformed.
    assert!(parse_event(&[0x1B, b'[', b'M', 32, 31, 40], false).is_err());
}

#[test]
fn test_xterm_mouse_hold_and_wheel() {
    assert_eq!(
        parse_event("\x1B[<32;5;6M".as_bytes(), false).unwrap(),
        Some(InternalEvent::Input(InputEvent::Mouse(MouseEvent::Hold(4, 5))))
    );
    assert_eq!(
        parse_event("\x1B[<64;5;6M".as_bytes(), false).unwrap(),
        Some(InternalEvent::Input(InputEvent::Mouse(MouseEvent::Press(
            MouseButton::WheelUp,
            4,
            5
        ))))
    );
    assert_eq!(
        parse_event("\x1B[<65;5;6M".as_bytes(), false).unwrap(),
        Some(InternalEvent::Input(InputEvent::Mouse(MouseEvent::Press(
            MouseButton::WheelDown,
            4,
            5
        ))))
    );
    assert_eq!(
        parse_event("\x1B[<3;5;6m".as_bytes(), false).unwrap(),
        Some(InternalEvent::Input(InputEvent::Mouse(MouseEvent::Release(4, 5))))
    );
    // Without a terminator the sequence is still arriving.
    assert_eq!(parse_event("\x1B[<64;5;6".as_bytes(), true).unwrap(), None);
}

#[test]
fn test_rxvt_mouse_variants() {
    assert_eq!(
        parse_event("\x1B[35;30;40;M".as_bytes(), false).unwrap(),
        Some(InternalEvent::Input(InputEvent::Mouse(MouseEvent::Release(29, 39))))
    );
    assert_eq!(
        parse_event("\x1B[64;30;40;M".as_bytes(), false).unwrap(),
        Some(InternalEvent::Input(InputEvent::Mouse(MouseEvent::Hold(29, 39))))
    );
    assert_eq!(
        parse_event("\x1B[96;30;40;M".as_bytes(), false).unwrap(),
        Some(InternalEvent::Input(InputEvent::Mouse(MouseEvent::Press(
            MouseButton::WheelUp,
            29,
            39
        ))))
    );
}

#[test]
fn test_malformed_sequences_are_errors() {
    // A parameter that overflows the sixteen-bit range.
    assert!(parse_event("\x1B[70000;10R".as_bytes(), false).is_err());
    // A missing parameter field.
    assert!(parse_event("\x1B[20R".as_bytes(), false).is_err());
    // A zero coordinate on a one-based wire encoding.
    assert!(parse_event("\x1B[0;10R".as_bytes(), false).is_err());
    // A stray byte inside a numeric field.
    assert!(parse_event("\x1B[2x0;10R".as_bytes(), false).is_err());
    // A special key code above the eight-bit range.
    assert!(parse_event("\x1B[999~".as_bytes(), false).is_err());
}

#[test]
fn test_empty_buffer_waits() {
    assert_eq!(parse_event(&[], false).unwrap(), None);
}

#[test]
fn test_decode_deterministic_on_repeat() {
    // The same buffer and hint always decode the same way.
    let buffer = "\x1B[32;30;40;M".as_bytes();
    assert_eq!(
        parse_event(buffer, false).unwrap(),
        parse_event(buffer, false).unwrap(),
    );
    assert_eq!(parse_event(&[0x1B], true).unwrap(), parse_event(&[0x1B], true).unwrap());
}
