use crossterm_input::channel::{EventChannel, PollResult};
use crossterm_input::pool::EventPool;
use crossterm_input::source::{EventSource, FakeInputSource, TTYInputSource};
use crossterm_input::{InputEvent, InternalEvent, KeyEvent, MouseButton, MouseEvent};

#[test]
pub fn test_read_all_events() {
    let mut channel = EventChannel::new();
    let consumer = channel.register();

    let input_events = vec![
        InputEvent::Unsupported(vec![]),
        InputEvent::Unknown,
        InputEvent::Mouse(MouseEvent::Unknown),
        InputEvent::Keyboard(KeyEvent::Up),
    ];

    for event in input_events.iter() {
        channel.publish(InternalEvent::Input(event.clone()));
    }

    let expected: Vec<InternalEvent> =
        input_events.into_iter().map(InternalEvent::Input).collect();
    assert_eq!(channel.read_all(consumer), expected);
}

#[test]
pub fn test_read_input_multiple_consumers() {
    let mut event_pool = EventPool::new();

    // Set the event source and stage one scripted event.
    event_pool.set_event_source(EventSource::Fake(FakeInputSource::new(vec![
        InputEvent::Unknown,
    ])));

    // Acquire consumers.
    let mut stream1 = event_pool.acquire_stream();
    let mut stream2 = event_pool.acquire_stream();

    // Poll for input.
    assert!(matches!(event_pool.poll(), PollResult::Event(_)));

    assert_eq!(stream1.events(&mut event_pool), vec![InputEvent::Unknown]);
    assert_eq!(stream2.events(&mut event_pool), vec![InputEvent::Unknown]);
}

#[test]
pub fn test_input_pool() {
    let mut input_pool = EventPool::new();

    // Set the input source and stage one scripted event.
    input_pool.set_event_source(EventSource::Fake(FakeInputSource::new(vec![
        InputEvent::Unknown,
    ])));

    // Acquire consumers.
    let mut stream1 = input_pool.acquire_stream();
    let mut stream2 = input_pool.acquire_stream();

    // Poll for input.
    assert!(matches!(input_pool.poll(), PollResult::Event(_)));

    assert_eq!(stream1.events(&mut input_pool), vec![InputEvent::Unknown]);
    assert_eq!(stream2.events(&mut input_pool), vec![InputEvent::Unknown]);
}

#[test]
pub fn test_receive_key_events() {
    let mut pool = EventPool::new();
    let mut input_stream = pool.acquire_stream();

    pool.publish(InternalEvent::Input(InputEvent::Keyboard(KeyEvent::Tab)));

    assert_eq!(input_stream.key_events(&mut pool), vec![KeyEvent::Tab]);
}

#[test]
pub fn test_receive_mouse_events() {
    let mut pool = EventPool::new();
    let mut input_stream = pool.acquire_stream();

    pool.publish(InternalEvent::Input(InputEvent::Mouse(MouseEvent::Unknown)));

    assert_eq!(input_stream.mouse_events(&mut pool), vec![MouseEvent::Unknown]);
    assert_eq!(input_stream.key_events(&mut pool), vec![]);
    assert_eq!(input_stream.events(&mut pool), vec![]);
}

#[test]
fn test_stream_keeps_undrained_kinds() {
    let mut pool = EventPool::new();
    let mut stream = pool.acquire_stream();

    pool.publish(InternalEvent::Input(InputEvent::Keyboard(KeyEvent::Tab)));
    pool.publish(InternalEvent::Input(InputEvent::Mouse(MouseEvent::Hold(1, 2))));
    pool.publish(InternalEvent::Input(InputEvent::Keyboard(KeyEvent::Esc)));

    // Draining the key events leaves the mouse event cached.
    assert_eq!(stream.key_events(&mut pool), vec![KeyEvent::Tab, KeyEvent::Esc]);
    assert_eq!(stream.mouse_events(&mut pool), vec![MouseEvent::Hold(1, 2)]);
    assert_eq!(stream.events(&mut pool), vec![]);
}

#[test]
fn test_fan_out_three_consumers() {
    // Every consumer observes the full published sequence, in order,
    // whatever its drain timing.
    let mut channel = EventChannel::new();
    let a = channel.register();
    let b = channel.register();
    let c = channel.register();

    let published = vec![
        InternalEvent::Input(InputEvent::Keyboard(KeyEvent::Char('x'))),
        InternalEvent::Input(InputEvent::Mouse(MouseEvent::Press(MouseButton::Left, 3, 4))),
        InternalEvent::CursorPosition(1, 2),
        InternalEvent::Input(InputEvent::Keyboard(KeyEvent::Enter)),
    ];
    for e in published.iter() {
        channel.publish(e.clone());
    }

    // One consumer drains early, the others later; all see the same thing.
    assert_eq!(channel.read_all(a), published);
    channel.publish(InternalEvent::Input(InputEvent::Keyboard(KeyEvent::Esc)));
    let mut with_tail = published.clone();
    with_tail.push(InternalEvent::Input(InputEvent::Keyboard(KeyEvent::Esc)));
    assert_eq!(channel.read_all(b), with_tail.clone());
    assert_eq!(channel.read_all(c), with_tail);
    assert_eq!(channel.read_all(a), vec![InternalEvent::Input(InputEvent::Keyboard(KeyEvent::Esc))]);
}

#[test]
fn test_late_consumer_misses_earlier_events() {
    let mut channel = EventChannel::new();
    let early = channel.register();
    channel.publish(InternalEvent::Input(InputEvent::Keyboard(KeyEvent::Tab)));
    let late = channel.register();
    channel.publish(InternalEvent::Input(InputEvent::Keyboard(KeyEvent::Esc)));

    assert_eq!(
        channel.read_all(early),
        vec![
            InternalEvent::Input(InputEvent::Keyboard(KeyEvent::Tab)),
            InternalEvent::Input(InputEvent::Keyboard(KeyEvent::Esc)),
        ]
    );
    assert_eq!(
        channel.read_all(late),
        vec![InternalEvent::Input(InputEvent::Keyboard(KeyEvent::Esc))]
    );
}

#[test]
fn test_worker_stops_with_last_consumer() {
    let mut pool = EventPool::new();
    assert!(!pool.worker_should_run());

    let stream1 = pool.acquire_stream();
    assert!(pool.worker_should_run());
    let stream2 = pool.acquire_stream();
    assert!(pool.worker_should_run());

    pool.release_stream(stream1);
    assert!(pool.worker_should_run());
    pool.release_stream(stream2);
    // The last consumer is gone: the background worker must stop.
    assert!(!pool.worker_should_run());
    assert_eq!(pool.consumer_count(), 0);
}

#[test]
fn test_pool_pop_distinguishes_pending_and_closed() {
    let mut pool = EventPool::new();
    let id = pool.register_consumer();
    assert!(matches!(pool.pop_event(id), PollResult::Pending));

    pool.publish(InternalEvent::Input(InputEvent::Keyboard(KeyEvent::Tab)));
    pool.close();
    // A queued event is still delivered after the close...
    assert!(matches!(
        pool.pop_event(id),
        PollResult::Event(InternalEvent::Input(InputEvent::Keyboard(KeyEvent::Tab)))
    ));
    // ...and only then does the consumer observe end-of-stream.
    assert!(matches!(pool.pop_event(id), PollResult::Closed));
}

#[test]
fn test_tty_source_resumes_across_bytes() {
    let mut source = TTYInputSource::new();
    assert_eq!(source.advance(0x1B, true), None);
    assert_eq!(source.advance(b'[', true), None);
    assert_eq!(
        source.advance(b'D', false),
        Some(InternalEvent::Input(InputEvent::Keyboard(KeyEvent::Left)))
    );
}

#[test]
fn test_tty_source_recovers_after_invalid() {
    let mut source = TTYInputSource::from_file_descriptor(0);
    // ESC O T is malformed; the buffer is discarded silently.
    assert_eq!(source.advance(0x1B, true), None);
    assert_eq!(source.advance(b'O', true), None);
    assert_eq!(source.advance(b'T', false), None);
    // Decoding resumes cleanly on the next byte.
    assert_eq!(
        source.advance(b'a', false),
        Some(InternalEvent::Input(InputEvent::Keyboard(KeyEvent::Char('a'))))
    );
}

#[test]
fn test_pool_push_tty_byte_publishes() {
    let mut pool = EventPool::new();
    let mut stream = pool.acquire_stream();
    assert_eq!(pool.push_tty_byte(0x1B, true), None);
    assert_eq!(pool.push_tty_byte(b'[', true), None);
    assert_eq!(
        pool.push_tty_byte(b'A', false),
        Some(InternalEvent::Input(InputEvent::Keyboard(KeyEvent::Up)))
    );
    assert_eq!(stream.events(&mut pool), vec![InputEvent::Keyboard(KeyEvent::Up)]);
}

#[test]
fn test_cursor_position_never_reaches_public_stream() {
    let mut pool = EventPool::new();
    let mut stream = pool.acquire_stream();
    pool.publish(InternalEvent::CursorPosition(9, 19));
    pool.publish(InternalEvent::Input(InputEvent::Keyboard(KeyEvent::Tab)));
    assert_eq!(stream.events(&mut pool), vec![InputEvent::Keyboard(KeyEvent::Tab)]);
}

#[test]
fn test_fake_source_replays_in_order() {
    let mut source = FakeInputSource::new(vec![
        InputEvent::Keyboard(KeyEvent::Char('a')),
        InputEvent::Keyboard(KeyEvent::Char('b')),
    ]);
    assert_eq!(source.input_event(), Some(InputEvent::Keyboard(KeyEvent::Char('a'))));
    assert_eq!(source.input_event(), Some(InputEvent::Keyboard(KeyEvent::Char('b'))));
    assert_eq!(source.input_event(), None);
}

#[test]
fn test_mouse_mode_sequences() {
    assert_eq!(
        EventPool::enable_mouse_events(),
        "\x1B[?1000h\x1B[?1002h\x1B[?1015h\x1B[?1006h"
    );
    assert_eq!(
        EventPool::disable_mouse_events(),
        "\x1B[?1006l\x1B[?1015l\x1B[?1002l\x1B[?1000l"
    );
}
