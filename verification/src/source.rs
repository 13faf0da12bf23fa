//! Platform event sources, modelled as resumable state machines.
//!
//! Exactly one variant is ever active per build: the TTY source accumulates
//! raw bytes and runs them through the escape-sequence decoder; the console
//! source translates already-structured input records; the scripted source
//! replays a fixed list of events for tests and simulations.  Obtaining the
//! raw bytes and records is blocking platform I/O and stays outside the
//! library; the sources hold everything the decoding itself needs.

use crate::decode::{parse_event, spec_parse_event};
use crate::events::{InputEvent, InputEventView, InternalEvent, InternalEventView};
use vstd::prelude::*;

verus! {

/// The decoding state of the terminal byte-stream source: the descriptor
/// the bytes come from, and the bytes of the escape sequence read so far.
pub struct TTYInputSource {
    fd: i32,
    buffer: Vec<u8>,
}

/// The mathematical state of a TTY source.
pub ghost struct TTYSourceView {
    /// The file descriptor the bytes are read from.
    pub fd: int,
    /// The bytes accumulated since the last complete or discarded sequence.
    pub pending: Seq<u8>,
}

impl View for TTYInputSource {
    type V = TTYSourceView;

    closed spec fn view(&self) -> TTYSourceView {
        TTYSourceView { fd: self.fd as int, pending: self.buffer@ }
    }
}

impl TTYInputSource {
    /// A source reading from standard input (file descriptor 0), with an
    /// empty decode buffer.
    pub fn new() -> (r: TTYInputSource)
        ensures
            r@.fd == 0,
            r@.pending == Seq::<u8>::empty(),
    {
        TTYInputSource::from_file_descriptor(0)
    }

    /// A source reading from the given open terminal file descriptor.
    pub fn from_file_descriptor(input_fd: i32) -> (r: TTYInputSource)
        ensures
            r@.fd == input_fd as int,
            r@.pending == Seq::<u8>::empty(),
    {
        let r = TTYInputSource { fd: input_fd, buffer: Vec::new() };
        proof {
            assert(r.buffer@ =~= Seq::<u8>::empty());
        }
        r
    }

    /// The file descriptor the caller must read bytes from.
    pub fn file_descriptor(&self) -> (r: i32)
        ensures
            r as int == self@.fd,
    {
        self.fd
    }

    /// Feeds one byte just read from the terminal, with the hint that more
    /// bytes are immediately available.  The buffer grows by the byte and is
    /// then decoded: a complete event clears it and is returned, a malformed
    /// sequence clears it silently, an incomplete one is kept for the bytes
    /// still to come.
    pub fn advance(&mut self, byte: u8, more_input_pending: bool) -> (r: Option<InternalEvent>)
        ensures
            final(self)@.fd == old(self)@.fd,
            ({
                let grown = old(self)@.pending.push(byte);
                match spec_parse_event(grown, more_input_pending) {
                    Ok(None) => r is None && final(self)@.pending == grown,
                    Ok(Some(ev)) => {
                        &&& r matches Some(e) && e.deep_view() == ev
                        &&& final(self)@.pending == Seq::<u8>::empty()
                    },
                    Err(_) => r is None && final(self)@.pending == Seq::<u8>::empty(),
                }
            }),
    {
        self.buffer.push(byte);
        let outcome = parse_event(self.buffer.as_slice(), more_input_pending);
        match outcome {
            Ok(None) => None,
            Ok(Some(event)) => {
                self.buffer.clear();
                proof {
                    assert(self.buffer@ =~= Seq::<u8>::empty());
                }
                Some(event)
            },
            Err(_) => {
                self.buffer.clear();
                proof {
                    assert(self.buffer@ =~= Seq::<u8>::empty());
                }
                None
            },
        }
    }
}

/// A scripted event source: replays a fixed sequence of input events, for
/// tests and simulations.
pub struct FakeInputSource {
    events: Vec<InputEvent>,
}

impl FakeInputSource {
    /// The events not yet replayed, in order.
    pub closed spec fn pending(&self) -> Seq<InputEventView> {
        self.events.deep_view()
    }

    /// A source that will replay the given events in order.
    pub fn new(events: Vec<InputEvent>) -> (r: FakeInputSource)
        ensures
            r.pending() == events.deep_view(),
    {
        FakeInputSource { events }
    }

    /// The next scripted event, or nothing once the script is exhausted.
    pub fn input_event(&mut self) -> (r: Option<InputEvent>)
        ensures
            ({
                let q = old(self).pending();
                if q.len() > 0 {
                    &&& r matches Some(e) && e.deep_view() == q[0]
                    &&& final(self).pending() == q.skip(1)
                } else {
                    r is None && final(self).pending() == q
                }
            }),
    {
        if self.events.len() == 0 {
            return None;
        }
        let e = self.events.remove(0);
        proof {
            assert(self.events.deep_view() =~= old(self).events.deep_view().skip(1));
        }
        Some(e)
    }
}

/// The console-record source; the records themselves arrive through the
/// caller, so the source carries no state.
pub struct WinApiInputSource;

impl WinApiInputSource {
    /// Creates the console-record source.
    pub fn new() -> WinApiInputSource {
        WinApiInputSource
    }
}

/// The console-record source under its event-pool name.
pub struct WinApiEventSource;

impl WinApiEventSource {
    /// Creates the console-record source.
    pub fn new() -> WinApiEventSource {
        WinApiEventSource
    }
}

/// The platform source a pool polls: a closed set of variants, since
/// exactly one of them is ever active per build or test.
pub enum EventSource {
    /// The POSIX terminal byte-stream source.
    Tty(TTYInputSource),
    /// The Windows console-record source.
    WinApi(WinApiEventSource),
    /// The scripted source.
    Fake(FakeInputSource),
}

/// The mathematical state of an event source.
pub ghost enum EventSourceView {
    Tty(TTYSourceView),
    WinApi,
    Fake(Seq<InputEventView>),
}

impl View for EventSource {
    type V = EventSourceView;

    open spec fn view(&self) -> EventSourceView {
        match self {
            EventSource::Tty(t) => EventSourceView::Tty(t@),
            EventSource::WinApi(_) => EventSourceView::WinApi,
            EventSource::Fake(f) => EventSourceView::Fake(f.pending()),
        }
    }
}

} // verus!
