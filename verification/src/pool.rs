//! The event pool: the explicitly owned context object that ties the
//! platform source to the broadcast channel and manages the background
//! worker's lifecycle.
//!
//! The pool is created once by the application and passed to every reader it
//! creates.  A worker must run exactly while at least one consumer is
//! registered: acquiring the first stream makes `worker_should_run` true,
//! releasing the last one makes it false again, so no thread idles and no
//! device is polled when nobody is listening.

use crate::channel::{spec_publish, EventChannel, PollResult};
use crate::events::{InputEvent, InternalEvent, InternalEventView};
use crate::source::{EventSource, EventSourceView, TTYInputSource, TTYSourceView};
use crate::stream::EventStream;
use crate::windows::{spec_translate_input_record, translate_input_record, InputRecord};
use vstd::prelude::*;

verus! {

/// The mouse-tracking enable sequence: the four mode-set sequences for
/// modes 1000, 1002, 1015 and 1006, in that order.
pub open spec fn mouse_enable_sequence() -> Seq<char> {
    "\x1B[?1000h\x1B[?1002h\x1B[?1015h\x1B[?1006h"@
}

/// The mouse-tracking disable sequence: the corresponding mode-reset
/// sequences in reverse order.
pub open spec fn mouse_disable_sequence() -> Seq<char> {
    "\x1B[?1006l\x1B[?1015l\x1B[?1002l\x1B[?1000l"@
}

/// The pool that takes care of polling for new input and fanning it out.
pub struct EventPool {
    channel: EventChannel,
    source: EventSource,
}

impl EventPool {
    /// The pending queue of every registered consumer.
    pub closed spec fn queues(&self) -> Map<u64, Seq<InternalEventView>> {
        self.channel.queues()
    }

    /// True once the producer side is gone for good.
    pub closed spec fn is_closed(&self) -> bool {
        self.channel.is_closed()
    }

    /// True while a fresh consumer identity can still be minted.
    pub closed spec fn can_register(&self) -> bool {
        self.channel.can_register()
    }

    /// The state of the platform source.
    pub closed spec fn source_view(&self) -> EventSourceView {
        self.source@
    }

    /// Internal consistency of the pool.
    pub closed spec fn wf(&self) -> bool {
        self.channel.wf()
    }

    /// A consumer is registered while the queue map knows its identity.
    pub open spec fn spec_is_registered(&self, id: u64) -> bool {
        self.queues().dom().contains(id)
    }

    /// The background worker must run exactly while somebody listens.
    pub open spec fn spec_worker_should_run(&self) -> bool {
        self.queues().dom().len() > 0
    }

    /// Creates a pool over the default platform source — the terminal byte
    /// stream on standard input — with no consumers yet.
    pub fn new() -> (r: EventPool)
        ensures
            r.wf(),
            r.queues() == Map::<u64, Seq<InternalEventView>>::empty(),
            !r.is_closed(),
            r.can_register(),
            r.source_view() == EventSourceView::Tty(
                TTYSourceView { fd: 0, pending: Seq::<u8>::empty() },
            ),
    {
        EventPool { channel: EventChannel::new(), source: EventSource::Tty(TTYInputSource::new()) }
    }

    /// Replaces the platform source; consumers and their queues stay as
    /// they are.
    pub fn set_event_source(&mut self, event_source: EventSource)
        requires
            old(self).wf(),
        ensures
            final(self).wf(),
            final(self).queues() == old(self).queues(),
            final(self).is_closed() == old(self).is_closed(),
            final(self).can_register() == old(self).can_register(),
            final(self).source_view() == event_source@,
    {
        self.source = event_source;
    }

    /// Registers a consumer and returns its fresh identity; its queue
    /// starts empty, so it sees only events published from now on.
    pub fn register_consumer(&mut self) -> (id: u64)
        requires
            old(self).wf(),
            old(self).can_register(),
        ensures
            final(self).wf(),
            !old(self).spec_is_registered(id),
            final(self).queues() == old(self).queues().insert(
                id,
                Seq::<InternalEventView>::empty(),
            ),
            final(self).is_closed() == old(self).is_closed(),
            final(self).source_view() == old(self).source_view(),
            final(self).spec_worker_should_run(),
    {
        proof {
            self.channel.lemma_dom_finite();
        }
        let id = self.channel.register();
        proof {
            self.channel.lemma_dom_finite();
            vstd::set::axiom_set_contains_len(self.channel.queues().dom(), id);
        }
        id
    }

    /// Deregisters a consumer; once the count reaches zero the worker must
    /// stop.
    pub fn deregister_consumer(&mut self, id: u64)
        requires
            old(self).wf(),
        ensures
            final(self).wf(),
            final(self).queues() == old(self).queues().remove(id),
            final(self).is_closed() == old(self).is_closed(),
            final(self).can_register() == old(self).can_register(),
            final(self).source_view() == old(self).source_view(),
            old(self).spec_is_registered(id) ==> final(self).queues().dom().len() == old(self).queues().dom().len() - 1,
            !old(self).spec_is_registered(id) ==> final(self).queues() == old(self).queues(),
    {
        proof {
            self.channel.lemma_dom_finite();
        }
        let ghost qs = self.channel.queues();
        self.channel.deregister(id);
        proof {
            vstd::set::axiom_set_remove_len(qs.dom(), id);
            if !qs.dom().contains(id) {
                assert(qs.remove(id) =~= qs);
            }
        }
    }

    /// Registers a consumer and wraps it as an event stream.
    pub fn acquire_stream(&mut self) -> (r: EventStream)
        requires
            old(self).wf(),
            old(self).can_register(),
        ensures
            final(self).wf(),
            !old(self).spec_is_registered(r.consumer_id()),
            r.cached() == Seq::<crate::events::InputEventView>::empty(),
            final(self).queues() == old(self).queues().insert(
                r.consumer_id(),
                Seq::<InternalEventView>::empty(),
            ),
            final(self).is_closed() == old(self).is_closed(),
            final(self).source_view() == old(self).source_view(),
            final(self).spec_worker_should_run(),
    {
        let id = self.register_consumer();
        EventStream::from_consumer(id)
    }

    /// Releases an event stream: its consumer is deregistered, and with the
    /// last consumer gone the worker must stop.
    pub fn release_stream(&mut self, stream: EventStream)
        requires
            old(self).wf(),
        ensures
            final(self).wf(),
            final(self).queues() == old(self).queues().remove(stream.consumer_id()),
            final(self).is_closed() == old(self).is_closed(),
            final(self).can_register() == old(self).can_register(),
            final(self).source_view() == old(self).source_view(),
            old(self).spec_is_registered(stream.consumer_id()) ==> final(self).queues().dom().len() == old(self).queues().dom().len() - 1,
    {
        let id = stream.consumer();
        self.deregister_consumer(id);
    }

    /// Publishes one decoded event to every registered consumer.
    pub fn publish(&mut self, event: InternalEvent)
        requires
            old(self).wf(),
        ensures
            final(self).wf(),
            final(self).queues() == spec_publish(old(self).queues(), event.deep_view()),
            final(self).is_closed() == old(self).is_closed(),
            final(self).can_register() == old(self).can_register(),
            final(self).source_view() == old(self).source_view(),
    {
        self.channel.publish(event);
    }

    /// Marks the stream as permanently over — after a fatal source failure,
    /// for example; drained consumers then observe end-of-stream.
    pub fn close(&mut self)
        requires
            old(self).wf(),
        ensures
            final(self).wf(),
            final(self).queues() == old(self).queues(),
            final(self).is_closed(),
            final(self).can_register() == old(self).can_register(),
            final(self).source_view() == old(self).source_view(),
    {
        self.channel.close();
    }

    /// Takes the next pending event of a consumer; `Pending` while the
    /// stream is alive, `Closed` once it is over or the identity unknown.
    pub fn pop_event(&mut self, id: u64) -> (r: PollResult<InternalEvent>)
        requires
            old(self).wf(),
        ensures
            final(self).wf(),
            final(self).is_closed() == old(self).is_closed(),
            final(self).can_register() == old(self).can_register(),
            final(self).source_view() == old(self).source_view(),
            ({
                let qs = old(self).queues();
                if !qs.dom().contains(id) {
                    r is Closed && final(self).queues() == qs
                } else if qs[id].len() > 0 {
                    &&& r matches PollResult::Event(e) && e.deep_view() == qs[id][0]
                    &&& final(self).queues() == qs.insert(id, qs[id].skip(1))
                } else if old(self).is_closed() {
                    r is Closed && final(self).queues() == qs
                } else {
                    r is Pending && final(self).queues() == qs
                }
            }),
    {
        self.channel.pop(id)
    }

    /// Drains everything a consumer has pending, in publication order.
    pub fn read_all_events(&mut self, id: u64) -> (r: Vec<InternalEvent>)
        requires
            old(self).wf(),
        ensures
            final(self).wf(),
            final(self).is_closed() == old(self).is_closed(),
            final(self).can_register() == old(self).can_register(),
            final(self).source_view() == old(self).source_view(),
            ({
                let qs = old(self).queues();
                if qs.dom().contains(id) {
                    r.deep_view() == qs[id] && final(self).queues() == qs.insert(
                        id,
                        Seq::<InternalEventView>::empty(),
                    )
                } else {
                    r.deep_view() == Seq::<InternalEventView>::empty() && final(self).queues()
                        == qs
                }
            }),
    {
        self.channel.read_all(id)
    }

    /// Says whether a consumer identity is currently registered.
    pub fn is_registered(&self, id: u64) -> (r: bool)
        requires
            self.wf(),
        ensures
            r == self.spec_is_registered(id),
    {
        self.channel.is_registered(id)
    }

    /// The number of registered consumers.
    pub fn consumer_count(&self) -> (r: usize)
        requires
            self.wf(),
        ensures
            r == self.queues().dom().len(),
    {
        self.channel.consumer_count()
    }

    /// Says whether the pool's source is the terminal byte stream, so that
    /// a caller can know `push_tty_byte` applies.
    pub fn has_tty_source(&self) -> (r: bool)
        ensures
            r == (self.source_view() is Tty),
    {
        match &self.source {
            EventSource::Tty(_) => true,
            _ => false,
        }
    }

    /// The file descriptor of the terminal source, when that is the source.
    pub fn tty_file_descriptor(&self) -> (r: Option<i32>)
        ensures
            match self.source_view() {
                EventSourceView::Tty(t) => r matches Some(fd) && fd as int == t.fd,
                _ => r is None,
            },
    {
        match &self.source {
            EventSource::Tty(t) => Some(t.file_descriptor()),
            _ => None,
        }
    }

    /// Says whether a fresh consumer can still be registered.
    pub fn can_acquire(&self) -> (r: bool)
        ensures
            r == self.can_register(),
    {
        self.channel.can_register_now()
    }

    /// Tells the application whether the background worker has to run: it
    /// must be started when this becomes true and stopped when it becomes
    /// false, so no thread outlives the last consumer.
    pub fn worker_should_run(&self) -> (r: bool)
        requires
            self.wf(),
        ensures
            r == self.spec_worker_should_run(),
    {
        self.consumer_count() > 0
    }

    /// Polls the platform source once.  The scripted source replays and
    /// publishes its next event; the byte-stream and console-record sources
    /// need input that only the caller's platform layer can obtain, which it
    /// hands in through `push_tty_byte` or `push_input_record`.
    pub fn poll(&mut self) -> (r: PollResult<InternalEvent>)
        requires
            old(self).wf(),
        ensures
            final(self).wf(),
            final(self).is_closed() == old(self).is_closed(),
            final(self).can_register() == old(self).can_register(),
            ({
                match old(self).source_view() {
                    EventSourceView::Fake(q) => if q.len() > 0 {
                        let ev = InternalEventView::Input(q[0]);
                        &&& r matches PollResult::Event(e) && e.deep_view() == ev
                        &&& final(self).source_view() == EventSourceView::Fake(q.skip(1))
                        &&& final(self).queues() == spec_publish(old(self).queues(), ev)
                    } else {
                        &&& r is Pending
                        &&& final(self).source_view() == EventSourceView::Fake(q)
                        &&& final(self).queues() == old(self).queues()
                    },
                    sv => {
                        &&& r is Pending
                        &&& final(self).source_view() == sv
                        &&& final(self).queues() == old(self).queues()
                    },
                }
            }),
    {
        let polled: Option<InputEvent> = match &mut self.source {
            EventSource::Fake(f) => f.input_event(),
            _ => None,
        };
        match polled {
            Some(e) => {
                let event = InternalEvent::Input(e);
                let out = event.clone();
                self.channel.publish(event);
                PollResult::Event(out)
            },
            None => PollResult::Pending,
        }
    }

    /// Feeds one byte read from the terminal into the decoder and publishes
    /// the event it completes, if any.
    pub fn push_tty_byte(&mut self, byte: u8, more_input_pending: bool) -> (r: Option<
        InternalEvent,
    >)
        requires
            old(self).wf(),
            old(self).source_view() is Tty,
        ensures
            final(self).wf(),
            final(self).is_closed() == old(self).is_closed(),
            final(self).can_register() == old(self).can_register(),
            ({
                let t = old(self).source_view()->Tty_0;
                let grown = t.pending.push(byte);
                match crate::decode::spec_parse_event(grown, more_input_pending) {
                    Ok(None) => {
                        &&& r is None
                        &&& final(self).source_view() == EventSourceView::Tty(
                            TTYSourceView { fd: t.fd, pending: grown },
                        )
                        &&& final(self).queues() == old(self).queues()
                    },
                    Ok(Some(ev)) => {
                        &&& r matches Some(e) && e.deep_view() == ev
                        &&& final(self).source_view() == EventSourceView::Tty(
                            TTYSourceView { fd: t.fd, pending: Seq::<u8>::empty() },
                        )
                        &&& final(self).queues() == spec_publish(old(self).queues(), ev)
                    },
                    Err(_) => {
                        &&& r is None
                        &&& final(self).source_view() == EventSourceView::Tty(
                            TTYSourceView { fd: t.fd, pending: Seq::<u8>::empty() },
                        )
                        &&& final(self).queues() == old(self).queues()
                    },
                }
            }),
    {
        let polled: Option<InternalEvent> = match &mut self.source {
            EventSource::Tty(t) => t.advance(byte, more_input_pending),
            _ => vstd::pervasive::unreached(),
        };
        match polled {
            Some(event) => {
                let out = event.clone();
                self.channel.publish(event);
                Some(out)
            },
            None => None,
        }
    }

    /// Feeds one console input record through the translation and publishes
    /// the event it yields, if any.
    pub fn push_input_record(&mut self, record: &InputRecord) -> (r: Option<InputEvent>)
        requires
            old(self).wf(),
        ensures
            final(self).wf(),
            final(self).is_closed() == old(self).is_closed(),
            final(self).can_register() == old(self).can_register(),
            final(self).source_view() == old(self).source_view(),
            r == spec_translate_input_record(*record),
            ({
                match spec_translate_input_record(*record) {
                    Some(e) => final(self).queues() == spec_publish(
                        old(self).queues(),
                        InternalEventView::Input(e.deep_view()),
                    ),
                    None => final(self).queues() == old(self).queues(),
                }
            }),
    {
        match translate_input_record(record) {
            Some(e) => {
                let out = e.clone();
                self.channel.publish(InternalEvent::Input(e));
                Some(out)
            },
            None => None,
        }
    }

    /// The control bytes that switch terminal mouse tracking on: modes
    /// 1000, 1002, 1015 and 1006, set in that order.  The caller writes
    /// them to the terminal's output side.
    pub fn enable_mouse_events() -> (r: &'static str)
        ensures
            r@ == mouse_enable_sequence(),
    {
        "\x1B[?1000h\x1B[?1002h\x1B[?1015h\x1B[?1006h"
    }

    /// The control bytes that switch terminal mouse tracking off: the same
    /// modes reset in reverse order.
    pub fn disable_mouse_events() -> (r: &'static str)
        ensures
            r@ == mouse_disable_sequence(),
    {
        "\x1B[?1006l\x1B[?1015l\x1B[?1002l\x1B[?1000l"
    }
}

} // verus!
