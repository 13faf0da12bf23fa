use crossterm_input::channel::PollResult;
use crossterm_input::pool::EventPool;
use crossterm_input::readers::{SyncReader, UnixInput};
use crossterm_input::windows::{
    handle_key_event, parse_key_event_record, parse_mouse_event_record, translate_input_record,
    ButtonState, EventFlags, InputRecord, KeyEventRecord, MouseEventRecord,
};
use crossterm_input::{InputEvent, InternalEvent, KeyEvent, MouseButton, MouseEvent};

fn key_record(vk: u16, ch: u16, state: u32) -> KeyEventRecord {
    KeyEventRecord { key_down: true, virtual_key_code: vk, unicode_char: ch, control_key_state: state }
}

#[test]
fn test_async_reader_idempotent_when_empty() {
    let mut pool = EventPool::new();
    let input = UnixInput::new();
    let mut reader = input.read_async(&mut pool);

    // Polling with nothing queued reports "nothing right now", repeatedly,
    // without side effects.
    assert_eq!(reader.next(&mut pool), None);
    assert_eq!(reader.next(&mut pool), None);
    assert_eq!(reader.next(&mut pool), None);

    // A genuine event is still delivered afterwards.
    pool.publish(InternalEvent::Input(InputEvent::Keyboard(KeyEvent::Char('q'))));
    assert_eq!(reader.next(&mut pool), Some(InputEvent::Keyboard(KeyEvent::Char('q'))));
    assert_eq!(reader.next(&mut pool), None);
}

#[test]
fn test_async_reader_sentinel_stops() {
    let mut pool = EventPool::new();
    let input = UnixInput::new();
    let mut reader = input.read_until_async(&mut pool, b'\n');

    pool.publish(InternalEvent::Input(InputEvent::Keyboard(KeyEvent::Char('x'))));
    pool.publish(InternalEvent::Input(InputEvent::Keyboard(KeyEvent::Enter)));
    pool.publish(InternalEvent::Input(InputEvent::Keyboard(KeyEvent::Char('y'))));

    assert_eq!(reader.next(&mut pool), Some(InputEvent::Keyboard(KeyEvent::Char('x'))));
    // The sentinel itself is delivered...
    assert_eq!(reader.next(&mut pool), Some(InputEvent::Keyboard(KeyEvent::Enter)));
    // ...and every later pull reports no more events, without reconnecting.
    assert_eq!(reader.next(&mut pool), None);
    assert_eq!(reader.next(&mut pool), None);
    pool.publish(InternalEvent::Input(InputEvent::Keyboard(KeyEvent::Char('z'))));
    assert_eq!(reader.next(&mut pool), None);
}

#[test]
fn test_async_reader_esc_sentinel() {
    let mut pool = EventPool::new();
    let input = UnixInput::new();
    let mut reader = input.read_until_async(&mut pool, 27);

    pool.publish(InternalEvent::Input(InputEvent::Keyboard(KeyEvent::Esc)));
    assert_eq!(reader.next(&mut pool), Some(InputEvent::Keyboard(KeyEvent::Esc)));
    assert_eq!(reader.next(&mut pool), None);
}

#[test]
fn test_async_reader_swallows_cursor_position() {
    let mut pool = EventPool::new();
    let input = UnixInput::new();
    let mut reader = input.read_async(&mut pool);

    pool.publish(InternalEvent::CursorPosition(3, 4));
    pool.publish(InternalEvent::Input(InputEvent::Keyboard(KeyEvent::Tab)));

    // The cursor-position report is consumed but never handed out.
    assert_eq!(reader.next(&mut pool), None);
    assert_eq!(reader.next(&mut pool), Some(InputEvent::Keyboard(KeyEvent::Tab)));
}

#[test]
fn test_async_reader_stop_detaches() {
    let mut pool = EventPool::new();
    let input = UnixInput::new();
    let mut reader = input.read_async(&mut pool);
    assert_eq!(pool.consumer_count(), 1);

    reader.stop(&mut pool);
    assert_eq!(pool.consumer_count(), 0);
    assert!(!pool.worker_should_run());

    pool.publish(InternalEvent::Input(InputEvent::Keyboard(KeyEvent::Tab)));
    assert_eq!(reader.next(&mut pool), None);
}

#[test]
fn test_sync_reader_three_state_poll() {
    let mut pool = EventPool::new();
    let input = UnixInput::new();
    let mut reader = input.read_sync(&mut pool);

    // Transient emptiness is not termination.
    assert!(matches!(reader.poll_next(&mut pool), PollResult::Pending));

    pool.publish(InternalEvent::Input(InputEvent::Keyboard(KeyEvent::Char('k'))));
    assert!(matches!(
        reader.poll_next(&mut pool),
        PollResult::Event(InputEvent::Keyboard(KeyEvent::Char('k')))
    ));

    // Once the producer side is gone and the queue is drained, the reader
    // observes end-of-stream instead of blocking forever.
    pool.close();
    assert!(matches!(reader.poll_next(&mut pool), PollResult::Closed));
    assert!(matches!(reader.poll_next(&mut pool), PollResult::Closed));
}

#[test]
fn test_read_char_skips_other_events() {
    let mut pool = EventPool::new();
    let input = UnixInput::new();
    let mut reader = input.read_sync(&mut pool);

    pool.publish(InternalEvent::Input(InputEvent::Mouse(MouseEvent::Hold(1, 1))));
    pool.publish(InternalEvent::CursorPosition(2, 2));
    pool.publish(InternalEvent::Input(InputEvent::Keyboard(KeyEvent::Enter)));
    pool.publish(InternalEvent::Input(InputEvent::Keyboard(KeyEvent::Char('z'))));

    assert!(matches!(input.read_char(&mut pool, &mut reader), PollResult::Event('z')));
    // With nothing left the caller is asked to wait.
    assert!(matches!(input.read_char(&mut pool, &mut reader), PollResult::Pending));
}

#[test]
fn test_read_char_closed_stream() {
    let mut pool = EventPool::new();
    let input = UnixInput::new();
    let mut reader: SyncReader = input.read_sync(&mut pool);
    pool.close();
    assert!(matches!(input.read_char(&mut pool, &mut reader), PollResult::Closed));
}

#[test]
fn test_win_key_plain_character() {
    let record = key_record(0x41, b'a' as u16, 0);
    assert_eq!(parse_key_event_record(&record), Some(KeyEvent::Char('a')));
}

#[test]
fn test_win_key_named_keys() {
    assert_eq!(parse_key_event_record(&key_record(0x08, 8, 0)), Some(KeyEvent::Backspace));
    assert_eq!(parse_key_event_record(&key_record(0x1B, 27, 0)), Some(KeyEvent::Esc));
    assert_eq!(parse_key_event_record(&key_record(0x0D, 13, 0)), Some(KeyEvent::Enter));
    assert_eq!(parse_key_event_record(&key_record(0x21, 0, 0)), Some(KeyEvent::PageUp));
    assert_eq!(parse_key_event_record(&key_record(0x22, 0, 0)), Some(KeyEvent::PageDown));
    assert_eq!(parse_key_event_record(&key_record(0x23, 0, 0)), Some(KeyEvent::End));
    assert_eq!(parse_key_event_record(&key_record(0x24, 0, 0)), Some(KeyEvent::Home));
    assert_eq!(parse_key_event_record(&key_record(0x2D, 0, 0)), Some(KeyEvent::Insert));
    assert_eq!(parse_key_event_record(&key_record(0x2E, 0, 0)), Some(KeyEvent::Delete));
    assert_eq!(parse_key_event_record(&key_record(0x70, 0, 0)), Some(KeyEvent::F(1)));
    assert_eq!(parse_key_event_record(&key_record(0x7B, 0, 0)), Some(KeyEvent::F(12)));
}

#[test]
fn test_win_key_modifier_only_ignored() {
    assert_eq!(parse_key_event_record(&key_record(0x10, 0, 0x0010)), None);
    assert_eq!(parse_key_event_record(&key_record(0x11, 0, 0x0008)), None);
    assert_eq!(parse_key_event_record(&key_record(0x12, 0, 0x0002)), None);
}

#[test]
fn test_win_key_modifier_arrows() {
    // Ctrl + left (left Ctrl bit set).
    assert_eq!(parse_key_event_record(&key_record(0x25, 0, 0x0008)), Some(KeyEvent::CtrlLeft));
    // Shift + up.
    assert_eq!(parse_key_event_record(&key_record(0x26, 0, 0x0010)), Some(KeyEvent::ShiftUp));
    // Plain right and down.
    assert_eq!(parse_key_event_record(&key_record(0x27, 0, 0)), Some(KeyEvent::Right));
    assert_eq!(parse_key_event_record(&key_record(0x28, 0, 0)), Some(KeyEvent::Down));
}

#[test]
fn test_win_key_ctrl_and_alt_characters() {
    // Ctrl+A arrives as control character 0x01: the same convention as the
    // byte-stream decoder.
    assert_eq!(
        parse_key_event_record(&key_record(0x41, 0x01, 0x0008)),
        Some(KeyEvent::Ctrl('a'))
    );
    assert_eq!(
        parse_key_event_record(&key_record(0x34, 0x1C, 0x0004)),
        Some(KeyEvent::Ctrl('4'))
    );
    // Alt+B: the command letter is taken from the virtual-key code.
    assert_eq!(
        parse_key_event_record(&key_record(0x42, 0, 0x0002)),
        Some(KeyEvent::Alt('B'))
    );
    // Alt over a key that is no letter yields nothing.
    assert_eq!(parse_key_event_record(&key_record(0x31, 0, 0x0001)), None);
}

#[test]
fn test_win_key_tab_and_backtab() {
    assert_eq!(parse_key_event_record(&key_record(0x09, 9, 0)), Some(KeyEvent::Tab));
    assert_eq!(parse_key_event_record(&key_record(0x09, 9, 0x0010)), Some(KeyEvent::BackTab));
}

#[test]
fn test_win_key_up_records_ignored() {
    let mut record = key_record(0x41, b'a' as u16, 0);
    record.key_down = false;
    assert_eq!(handle_key_event(&record), None);
}

#[test]
fn test_win_mouse_press_release_and_drag() {
    let press = MouseEventRecord {
        mouse_position_x: 3,
        mouse_position_y: 4,
        button_state: ButtonState::FromLeft1stButtonPressed,
        event_flags: EventFlags::PressOrRelease,
    };
    assert_eq!(
        parse_mouse_event_record(&press),
        Some(MouseEvent::Press(MouseButton::Left, 3, 4))
    );

    let release = MouseEventRecord { button_state: ButtonState::Release, ..press };
    assert_eq!(parse_mouse_event_record(&release), Some(MouseEvent::Release(3, 4)));

    let drag = MouseEventRecord {
        button_state: ButtonState::RightmostButtonPressed,
        event_flags: EventFlags::MouseMoved,
        ..press
    };
    assert_eq!(parse_mouse_event_record(&drag), Some(MouseEvent::Hold(3, 4)));

    // A move without a held button yields nothing.
    let hover = MouseEventRecord {
        button_state: ButtonState::Release,
        event_flags: EventFlags::MouseMoved,
        ..press
    };
    assert_eq!(parse_mouse_event_record(&hover), None);
}

#[test]
fn test_win_mouse_wheel_sign() {
    let up = MouseEventRecord {
        mouse_position_x: 1,
        mouse_position_y: 2,
        button_state: ButtonState::Release,
        event_flags: EventFlags::MouseWheeled,
    };
    assert_eq!(
        parse_mouse_event_record(&up),
        Some(MouseEvent::Press(MouseButton::WheelUp, 1, 2))
    );
    let down = MouseEventRecord { button_state: ButtonState::Negative, ..up };
    assert_eq!(
        parse_mouse_event_record(&down),
        Some(MouseEvent::Press(MouseButton::WheelDown, 1, 2))
    );
}

#[test]
fn test_win_mouse_unsupported_kinds() {
    let double = MouseEventRecord {
        mouse_position_x: 0,
        mouse_position_y: 0,
        button_state: ButtonState::FromLeft1stButtonPressed,
        event_flags: EventFlags::DoubleClick,
    };
    assert_eq!(parse_mouse_event_record(&double), None);
    let horizontal = MouseEventRecord { event_flags: EventFlags::MouseHwheeled, ..double };
    assert_eq!(parse_mouse_event_record(&horizontal), None);
}

#[test]
fn test_win_translate_whole_records() {
    assert_eq!(
        translate_input_record(&InputRecord::Key(key_record(0x41, b'a' as u16, 0))),
        Some(InputEvent::Keyboard(KeyEvent::Char('a')))
    );
    assert_eq!(translate_input_record(&InputRecord::WindowBufferSizeEvent), None);
    assert_eq!(translate_input_record(&InputRecord::FocusEvent), None);
    assert_eq!(translate_input_record(&InputRecord::MenuEvent), None);
}

#[test]
fn test_pool_push_input_record_publishes() {
    let mut pool = EventPool::new();
    let mut stream = pool.acquire_stream();
    let record = InputRecord::Key(key_record(0x41, b'a' as u16, 0));
    assert_eq!(pool.push_input_record(&record), Some(InputEvent::Keyboard(KeyEvent::Char('a'))));
    assert_eq!(stream.events(&mut pool), vec![InputEvent::Keyboard(KeyEvent::Char('a'))]);
}
