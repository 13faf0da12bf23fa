//! Reader front-ends over a pool's consumer handles: a non-blocking reader
//! with an optional sentinel event, and a blocking-style reader whose
//! three-state poll result lets the caller wait without mistaking transient
//! emptiness for the end of the stream.

use crate::channel::PollResult;
use crate::decode::char_from_scalar;
use crate::events::{
    spec_public_event, InputEvent, InputEventView, InternalEventView, KeyEvent,
};
use crate::pool::EventPool;
use vstd::prelude::*;

verus! {

/// The terminal input entry point: hands out readers over a pool.
pub struct UnixInput;

/// The sentinel chosen for a delimiter byte: line ends map to Enter, the
/// escape byte to Esc, any other ASCII byte to its character, and a
/// non-ASCII byte to no sentinel at all.
pub open spec fn spec_delimiter_sentinel(delimiter: u8) -> Option<InputEventView> {
    if delimiter == 10 || delimiter == 13 {
        Some(InputEventView::Keyboard(KeyEvent::Enter))
    } else if delimiter == 27 {
        Some(InputEventView::Keyboard(KeyEvent::Esc))
    } else if delimiter < 128 {
        Some(InputEventView::Keyboard(KeyEvent::Char(((delimiter as u32) as char))))
    } else {
        None
    }
}

/// Scanning a pending queue for the first plain character event: everything
/// before it is consumed and discarded; an exhausted queue reports `Pending`
/// while the stream is alive and `Closed` once it is over.
pub open spec fn spec_read_char(q: Seq<InternalEventView>, closed: bool) -> (PollResult<
    char,
>, Seq<InternalEventView>)
    decreases q.len(),
{
    if q.len() == 0 {
        (if closed {
            PollResult::Closed
        } else {
            PollResult::Pending
        }, q)
    } else {
        match q[0] {
            InternalEventView::Input(InputEventView::Keyboard(KeyEvent::Char(c))) => (
                PollResult::Event(c),
                q.skip(1),
            ),
            _ => spec_read_char(q.skip(1), closed),
        }
    }
}

impl UnixInput {
    /// Creates the input entry point.
    pub fn new() -> UnixInput {
        UnixInput
    }

    /// Registers a consumer and wraps it in a non-blocking reader without a
    /// sentinel.
    pub fn read_async(&self, pool: &mut EventPool) -> (r: AsyncReader)
        requires
            old(pool).wf(),
            old(pool).can_register(),
        ensures
            final(pool).wf(),
            final(pool).is_closed() == old(pool).is_closed(),
            final(pool).source_view() == old(pool).source_view(),
            r.sentinel_view() is None,
            ({
                &&& r.consumer() matches Some(id)
                &&& !old(pool).spec_is_registered(id)
                &&& final(pool).queues() == old(pool).queues().insert(
                    id,
                    Seq::<InternalEventView>::empty(),
                )
            }),
    {
        let id = pool.register_consumer();
        AsyncReader { consumer: Some(id), sentinel: None }
    }

    /// Registers a consumer and wraps it in a non-blocking reader that stops
    /// once it has delivered the event chosen by the delimiter byte.
    pub fn read_until_async(&self, pool: &mut EventPool, delimiter: u8) -> (r: AsyncReader)
        requires
            old(pool).wf(),
            old(pool).can_register(),
        ensures
            final(pool).wf(),
            final(pool).is_closed() == old(pool).is_closed(),
            final(pool).source_view() == old(pool).source_view(),
            r.sentinel_view() == spec_delimiter_sentinel(delimiter),
            ({
                &&& r.consumer() matches Some(id)
                &&& !old(pool).spec_is_registered(id)
                &&& final(pool).queues() == old(pool).queues().insert(
                    id,
                    Seq::<InternalEventView>::empty(),
                )
            }),
    {
        let sentinel: Option<InputEvent> = if delimiter == 10 || delimiter == 13 {
            Some(InputEvent::Keyboard(KeyEvent::Enter))
        } else if delimiter == 27 {
            Some(InputEvent::Keyboard(KeyEvent::Esc))
        } else if delimiter < 128 {
            let c = char_from_scalar(delimiter as u32);
            proof {
                vstd::utf8::char_u32_cast(c, delimiter as u32);
            }
            Some(InputEvent::Keyboard(KeyEvent::Char(c)))
        } else {
            None
        };
        let id = pool.register_consumer();
        AsyncReader { consumer: Some(id), sentinel }
    }

    /// Registers a consumer and wraps it in a blocking-style reader.
    pub fn read_sync(&self, pool: &mut EventPool) -> (r: SyncReader)
        requires
            old(pool).wf(),
            old(pool).can_register(),
        ensures
            final(pool).wf(),
            final(pool).is_closed() == old(pool).is_closed(),
            final(pool).source_view() == old(pool).source_view(),
            ({
                &&& r.consumer() matches Some(id)
                &&& !old(pool).spec_is_registered(id)
                &&& final(pool).queues() == old(pool).queues().insert(
                    id,
                    Seq::<InternalEventView>::empty(),
                )
            }),
    {
        let id = pool.register_consumer();
        SyncReader { consumer: Some(id) }
    }

    /// Scans the reader's pending events for the next plain character.
    /// `Pending` means the caller should wait for more input and try again;
    /// `Closed` means no character can ever arrive.
    pub fn read_char(&self, pool: &mut EventPool, reader: &mut SyncReader) -> (r: PollResult<char>)
        requires
            old(pool).wf(),
        ensures
            final(pool).wf(),
            final(pool).is_closed() == old(pool).is_closed(),
            final(pool).can_register() == old(pool).can_register(),
            final(pool).source_view() == old(pool).source_view(),
            ({
                let qs = old(pool).queues();
                match old(reader).consumer() {
                    None => {
                        &&& r is Closed
                        &&& final(reader).consumer() is None
                        &&& final(pool).queues() == qs
                    },
                    Some(id) => if !qs.dom().contains(id) {
                        &&& r is Closed
                        &&& final(reader).consumer() is None
                        &&& final(pool).queues() == qs
                    } else {
                        let outcome = spec_read_char(qs[id], old(pool).is_closed());
                        &&& r == outcome.0
                        &&& (if r is Closed {
                            final(reader).consumer() is None && final(pool).queues() == qs.insert(
                                id,
                                outcome.1,
                            ).remove(id)
                        } else {
                            final(reader).consumer() == Some(id) && final(pool).queues()
                                == qs.insert(id, outcome.1)
                        })
                    },
                }
            }),
    {
        let id = match reader.consumer {
            Some(id) => id,
            None => {
                return PollResult::Closed;
            },
        };
        let ghost qs = pool.queues();
        if !pool.is_registered(id) {
            reader.consumer = None;
            return PollResult::Closed;
        }
        let ghost q0 = qs[id];
        let ghost mut k: int = 0;
        proof {
            assert(q0.skip(0) =~= q0);
            assert(qs.insert(id, q0) =~= qs);
        }
        loop
            invariant
                old(reader).consumer() == Some(id),
                pool.wf(),
                pool.is_closed() == old(pool).is_closed(),
                pool.can_register() == old(pool).can_register(),
                pool.source_view() == old(pool).source_view(),
                qs == old(pool).queues(),
                qs.dom().contains(id),
                q0 == qs[id],
                0 <= k <= q0.len(),
                pool.queues() == qs.insert(id, q0.skip(k)),
                spec_read_char(q0, old(pool).is_closed()) == spec_read_char(
                    q0.skip(k),
                    old(pool).is_closed(),
                ),
                reader.consumer == Some(id),
            decreases q0.len() - k,
        {
            proof {
                if k == q0.len() {
                    assert(q0.skip(k) =~= Seq::<InternalEventView>::empty());
                }
            }
            match pool.pop_event(id) {
                PollResult::Pending => {
                    return PollResult::Pending;
                },
                PollResult::Closed => {
                    reader.consumer = None;
                    pool.deregister_consumer(id);
                    return PollResult::Closed;
                },
                PollResult::Event(internal) => {
                    proof {
                        assert(q0.skip(k).len() > 0);
                        assert(q0.skip(k).skip(1) =~= q0.skip(k + 1));
                        assert(qs.insert(id, q0.skip(k)).insert(id, q0.skip(k).skip(1))
                            =~= qs.insert(id, q0.skip(k + 1)));
                    }
                    match internal.into_input_event() {
                        Some(e) => match e {
                            InputEvent::Keyboard(KeyEvent::Char(c)) => {
                                return PollResult::Event(c);
                            },
                            _ => {
                                proof {
                                    k = k + 1;
                                }
                            },
                        },
                        None => {
                            proof {
                                k = k + 1;
                            }
                        },
                    }
                },
            }
        }
    }
}

/// A non-blocking reader: each call to `next` either hands out the next
/// pending event or reports that nothing is there right now.  An optional
/// sentinel event detaches the reader once delivered.
pub struct AsyncReader {
    consumer: Option<u64>,
    sentinel: Option<InputEvent>,
}

impl AsyncReader {
    /// The consumer handle, while the reader is attached.
    pub closed spec fn consumer(&self) -> Option<u64> {
        self.consumer
    }

    /// The configured sentinel event, if any.
    pub closed spec fn sentinel_view(&self) -> Option<InputEventView> {
        self.sentinel.deep_view()
    }

    /// Tries to read the next input event without blocking.
    ///
    /// `None` with an empty queue means only "nothing right now" and changes
    /// nothing, so polling idly is free of side effects; new events are
    /// still delivered by later calls.  A cursor-position report is consumed
    /// and withheld.  Delivering the sentinel, reaching a closed stream, or
    /// being already detached, detaches the reader: from then on every call
    /// returns `None` and changes nothing.
    pub fn next(&mut self, pool: &mut EventPool) -> (r: Option<InputEvent>)
        requires
            old(pool).wf(),
        ensures
            final(pool).wf(),
            final(pool).is_closed() == old(pool).is_closed(),
            final(pool).can_register() == old(pool).can_register(),
            final(pool).source_view() == old(pool).source_view(),
            final(self).sentinel_view() == old(self).sentinel_view(),
            ({
                let qs = old(pool).queues();
                match old(self).consumer() {
                    None => {
                        &&& r is None
                        &&& final(self).consumer() is None
                        &&& final(pool).queues() == qs
                    },
                    Some(id) => if !qs.dom().contains(id) {
                        &&& r is None
                        &&& final(self).consumer() is None
                        &&& final(pool).queues() == qs
                    } else if qs[id].len() == 0 {
                        if old(pool).is_closed() {
                            &&& r is None
                            &&& final(self).consumer() is None
                            &&& final(pool).queues() == qs.remove(id)
                        } else {
                            &&& r is None
                            &&& final(self).consumer() == Some(id)
                            &&& final(pool).queues() == qs
                        }
                    } else {
                        let rest = qs.insert(id, qs[id].skip(1));
                        match spec_public_event(qs[id][0]) {
                            None => {
                                &&& r is None
                                &&& final(self).consumer() == Some(id)
                                &&& final(pool).queues() == rest
                            },
                            Some(e) => {
                                &&& r matches Some(ev) && ev.deep_view() == e
                                &&& (if old(self).sentinel_view() == Some(e) {
                                    final(self).consumer() is None && final(pool).queues()
                                        == rest.remove(id)
                                } else {
                                    final(self).consumer() == Some(id) && final(pool).queues()
                                        == rest
                                })
                            },
                        }
                    },
                }
            }),
    {
        let id = match self.consumer {
            Some(id) => id,
            None => {
                return None;
            },
        };
        match pool.pop_event(id) {
            PollResult::Pending => None,
            PollResult::Closed => {
                self.consumer = None;
                let ghost qs = old(pool).queues();
                pool.deregister_consumer(id);
                proof {
                    if !qs.dom().contains(id) {
                        assert(qs.remove(id) =~= qs);
                    }
                }
                None
            },
            PollResult::Event(internal) => {
                match internal.into_input_event() {
                    Some(e) => {
                        let hit_sentinel = match &self.sentinel {
                            Some(s) => *s == e,
                            None => false,
                        };
                        if hit_sentinel {
                            self.consumer = None;
                            pool.deregister_consumer(id);
                        }
                        Some(e)
                    },
                    None => None,
                }
            },
        }
    }

    /// Detaches the reader from the pool; every later `next` returns `None`.
    pub fn stop(&mut self, pool: &mut EventPool)
        requires
            old(pool).wf(),
        ensures
            final(pool).wf(),
            final(pool).is_closed() == old(pool).is_closed(),
            final(pool).can_register() == old(pool).can_register(),
            final(pool).source_view() == old(pool).source_view(),
            final(self).consumer() is None,
            final(self).sentinel_view() == old(self).sentinel_view(),
            final(pool).queues() == (match old(self).consumer() {
                Some(id) => old(pool).queues().remove(id),
                None => old(pool).queues(),
            }),
            ({
                match old(self).consumer() {
                    Some(id) => old(pool).spec_is_registered(id)
                        ==> final(pool).queues().dom().len() == old(pool).queues().dom().len() - 1,
                    None => true,
                }
            }),
    {
        match self.consumer {
            Some(id) => {
                pool.deregister_consumer(id);
                self.consumer = None;
            },
            None => {},
        }
    }
}

/// A blocking-style reader: `poll_next` never blocks itself, but its
/// three-state result tells the caller exactly when waiting is worthwhile.
pub struct SyncReader {
    consumer: Option<u64>,
}

impl SyncReader {
    /// The consumer handle, while the reader is attached.
    pub closed spec fn consumer(&self) -> Option<u64> {
        self.consumer
    }

    /// Detaches the reader from the pool; every later poll reports `Closed`.
    pub fn stop(&mut self, pool: &mut EventPool)
        requires
            old(pool).wf(),
        ensures
            final(pool).wf(),
            final(pool).is_closed() == old(pool).is_closed(),
            final(pool).can_register() == old(pool).can_register(),
            final(pool).source_view() == old(pool).source_view(),
            final(self).consumer() is None,
            final(pool).queues() == (match old(self).consumer() {
                Some(id) => old(pool).queues().remove(id),
                None => old(pool).queues(),
            }),
    {
        match self.consumer {
            Some(id) => {
                pool.deregister_consumer(id);
                self.consumer = None;
            },
            None => {},
        }
    }

    /// Tries to read the next input event.  `Pending` asks the caller to
    /// wait and poll again — also after a withheld cursor-position report —
    /// and `Closed` reports the definitive end of the stream.
    pub fn poll_next(&mut self, pool: &mut EventPool) -> (r: PollResult<InputEvent>)
        requires
            old(pool).wf(),
        ensures
            final(pool).wf(),
            final(pool).is_closed() == old(pool).is_closed(),
            final(pool).can_register() == old(pool).can_register(),
            final(pool).source_view() == old(pool).source_view(),
            ({
                let qs = old(pool).queues();
                match old(self).consumer() {
                    None => {
                        &&& r is Closed
                        &&& final(self).consumer() is None
                        &&& final(pool).queues() == qs
                    },
                    Some(id) => if !qs.dom().contains(id) {
                        &&& r is Closed
                        &&& final(self).consumer() is None
                        &&& final(pool).queues() == qs
                    } else if qs[id].len() == 0 {
                        if old(pool).is_closed() {
                            &&& r is Closed
                            &&& final(self).consumer() is None
                            &&& final(pool).queues() == qs.remove(id)
                        } else {
                            &&& r is Pending
                            &&& final(self).consumer() == Some(id)
                            &&& final(pool).queues() == qs
                        }
                    } else {
                        let rest = qs.insert(id, qs[id].skip(1));
                        match spec_public_event(qs[id][0]) {
                            None => {
                                &&& r is Pending
                                &&& final(self).consumer() == Some(id)
                                &&& final(pool).queues() == rest
                            },
                            Some(e) => {
                                &&& r matches PollResult::Event(ev) && ev.deep_view() == e
                                &&& final(self).consumer() == Some(id)
                                &&& final(pool).queues() == rest
                            },
                        }
                    },
                }
            }),
    {
        let id = match self.consumer {
            Some(id) => id,
            None => {
                return PollResult::Closed;
            },
        };
        match pool.pop_event(id) {
            PollResult::Pending => PollResult::Pending,
            PollResult::Closed => {
                self.consumer = None;
                let ghost qs = old(pool).queues();
                pool.deregister_consumer(id);
                proof {
                    if !qs.dom().contains(id) {
                        assert(qs.remove(id) =~= qs);
                    }
                }
                PollResult::Closed
            },
            PollResult::Event(internal) => {
                match internal.into_input_event() {
                    Some(e) => PollResult::Event(e),
                    None => PollResult::Pending,
                }
            },
        }
    }
}

} // verus!
