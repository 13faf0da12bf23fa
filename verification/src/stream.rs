//! The event stream: a consumer handle over the pool's broadcast channel
//! together with a local cache, so that key events and mouse events can be
//! drained separately without losing whichever kind the caller did not ask
//! for.

use crate::events::{spec_public_event, InputEvent, InputEventView, KeyEvent, MouseEvent};
use crate::pool::EventPool;
use vstd::prelude::*;

verus! {

/// What a queue of internal events looks like on the public stream: input
/// events in order, with cursor-position reports withheld.
pub open spec fn public_events_of(
    q: Seq<crate::events::InternalEventView>,
) -> Seq<InputEventView>
    decreases q.len(),
{
    if q.len() == 0 {
        Seq::empty()
    } else {
        let rest = public_events_of(q.drop_last());
        match spec_public_event(q.last()) {
            Some(e) => rest.push(e),
            None => rest,
        }
    }
}

/// The keyboard events of a public stream, in order.
pub open spec fn keyboard_events_of(s: Seq<InputEventView>) -> Seq<KeyEvent>
    decreases s.len(),
{
    if s.len() == 0 {
        Seq::empty()
    } else {
        let rest = keyboard_events_of(s.drop_last());
        match s.last() {
            InputEventView::Keyboard(k) => rest.push(k),
            _ => rest,
        }
    }
}

/// A public stream with its keyboard events removed.
pub open spec fn without_keyboard(s: Seq<InputEventView>) -> Seq<InputEventView>
    decreases s.len(),
{
    if s.len() == 0 {
        Seq::empty()
    } else {
        let rest = without_keyboard(s.drop_last());
        match s.last() {
            InputEventView::Keyboard(_) => rest,
            e => rest.push(e),
        }
    }
}

/// The mouse events of a public stream, in order.
pub open spec fn mouse_events_of(s: Seq<InputEventView>) -> Seq<MouseEvent>
    decreases s.len(),
{
    if s.len() == 0 {
        Seq::empty()
    } else {
        let rest = mouse_events_of(s.drop_last());
        match s.last() {
            InputEventView::Mouse(m) => rest.push(m),
            _ => rest,
        }
    }
}

/// A public stream with its mouse events removed.
pub open spec fn without_mouse(s: Seq<InputEventView>) -> Seq<InputEventView>
    decreases s.len(),
{
    if s.len() == 0 {
        Seq::empty()
    } else {
        let rest = without_mouse(s.drop_last());
        match s.last() {
            InputEventView::Mouse(_) => rest,
            e => rest.push(e),
        }
    }
}

/// A reader over one consumer handle of a pool, with the local cache that
/// keeps events of the kind the caller has not drained yet.
pub struct EventStream {
    consumer: u64,
    cache: Vec<InputEvent>,
}

impl EventStream {
    /// The consumer identity this stream drains.
    pub closed spec fn consumer_id(&self) -> u64 {
        self.consumer
    }

    /// The input events received but not yet handed out.
    pub closed spec fn cached(&self) -> Seq<InputEventView> {
        self.cache.deep_view()
    }

    /// Wraps a freshly registered consumer identity.
    pub(crate) fn from_consumer(id: u64) -> (r: EventStream)
        ensures
            r.consumer_id() == id,
            r.cached() == Seq::<InputEventView>::empty(),
    {
        let r = EventStream { consumer: id, cache: Vec::new() };
        proof {
            assert(r.cache.deep_view() =~= Seq::<InputEventView>::empty());
        }
        r
    }

    /// The consumer identity, for deregistration.
    pub(crate) fn consumer(&self) -> (r: u64)
        ensures
            r == self.consumer_id(),
    {
        self.consumer
    }

    /// Moves everything pending on the channel into the local cache.
    fn refresh(&mut self, pool: &mut EventPool)
        requires
            old(pool).wf(),
        ensures
            final(pool).wf(),
            final(pool).is_closed() == old(pool).is_closed(),
            final(pool).can_register() == old(pool).can_register(),
            final(pool).source_view() == old(pool).source_view(),
            final(self).consumer_id() == old(self).consumer_id(),
            ({
                let qs = old(pool).queues();
                let id = old(self).consumer_id();
                if qs.dom().contains(id) {
                    final(self).cached() == old(self).cached() + public_events_of(qs[id])
                        && final(pool).queues() == qs.insert(
                        id,
                        Seq::<crate::events::InternalEventView>::empty(),
                    )
                } else {
                    final(self).cached() == old(self).cached() && final(pool).queues() == qs
                }
            }),
    {
        let incoming = pool.read_all_events(self.consumer);
        let ghost inc = incoming.deep_view();
        let ghost cache0 = self.cache.deep_view();
        let n = incoming.len();
        let mut i: usize = 0;
        proof {
            assert(inc.take(0) =~= Seq::<crate::events::InternalEventView>::empty());
            assert(cache0 + public_events_of(inc.take(0)) =~= cache0);
        }
        while i < n
            invariant
                i <= n == incoming.deep_view().len(),
                n == incoming@.len(),
                inc == incoming.deep_view(),
                self.consumer == old(self).consumer_id(),
                self.cache.deep_view() == cache0 + public_events_of(inc.take(i as int)),
            decreases n - i,
        {
            let ev = vec_ref(&incoming, i).clone();
            proof {
                assert(ev.deep_view() == inc[i as int]);
                assert(inc.take(i + 1).drop_last() =~= inc.take(i as int));
            }
            match ev.into_input_event() {
                Some(public) => {
                    let ghost before = self.cache.deep_view();
                    self.cache.push(public);
                    proof {
                        assert(spec_public_event(inc[i as int]) == Some(public.deep_view()));
                        assert(public_events_of(inc.take(i + 1)) =~= public_events_of(
                            inc.take(i as int),
                        ).push(public.deep_view()));
                        assert(self.cache.deep_view() =~= before.push(public.deep_view()));
                        assert(self.cache.deep_view() =~= cache0 + public_events_of(
                            inc.take(i + 1),
                        ));
                    }
                },
                None => {
                    proof {
                        assert(self.cache.deep_view() =~= cache0 + public_events_of(
                            inc.take(i + 1),
                        ));
                    }
                },
            }
            i += 1;
        }
        proof {
            assert(inc.take(n as int) =~= inc);
        }
    }

    /// Hands out every pending input event, in order; the cache empties.
    pub fn events(&mut self, pool: &mut EventPool) -> (r: Vec<InputEvent>)
        requires
            old(pool).wf(),
        ensures
            final(pool).wf(),
            final(pool).is_closed() == old(pool).is_closed(),
            final(pool).can_register() == old(pool).can_register(),
            final(pool).source_view() == old(pool).source_view(),
            final(self).consumer_id() == old(self).consumer_id(),
            final(self).cached() == Seq::<InputEventView>::empty(),
            ({
                let qs = old(pool).queues();
                let id = old(self).consumer_id();
                if qs.dom().contains(id) {
                    r.deep_view() == old(self).cached() + public_events_of(qs[id]) && final(pool).queues() == qs.insert(id, Seq::<crate::events::InternalEventView>::empty())
                } else {
                    r.deep_view() == old(self).cached() && final(pool).queues() == qs
                }
            }),
    {
        self.refresh(pool);
        let mut drained: Vec<InputEvent> = Vec::new();
        core::mem::swap(&mut drained, &mut self.cache);
        proof {
            assert(self.cache.deep_view() =~= Seq::<InputEventView>::empty());
        }
        drained
    }

    /// Hands out the pending keyboard events, in order, leaving everything
    /// else cached for the other accessors.
    pub fn key_events(&mut self, pool: &mut EventPool) -> (r: Vec<KeyEvent>)
        requires
            old(pool).wf(),
        ensures
            final(pool).wf(),
            final(pool).is_closed() == old(pool).is_closed(),
            final(pool).can_register() == old(pool).can_register(),
            final(pool).source_view() == old(pool).source_view(),
            final(self).consumer_id() == old(self).consumer_id(),
            ({
                let qs = old(pool).queues();
                let id = old(self).consumer_id();
                let all = if qs.dom().contains(id) {
                    old(self).cached() + public_events_of(qs[id])
                } else {
                    old(self).cached()
                };
                &&& r@ == keyboard_events_of(all)
                &&& final(self).cached() == without_keyboard(all)
                &&& final(pool).queues() == (if qs.dom().contains(id) {
                    qs.insert(id, Seq::<crate::events::InternalEventView>::empty())
                } else {
                    qs
                })
            }),
    {
        self.refresh(pool);
        let ghost all = self.cache.deep_view();
        let mut kept: Vec<InputEvent> = Vec::new();
        let mut out: Vec<KeyEvent> = Vec::new();
        let n = self.cache.len();
        let mut i: usize = 0;
        proof {
            assert(all.take(0) =~= Seq::<InputEventView>::empty());
        }
        while i < n
            invariant
                i <= n == self.cache@.len(),
                all == self.cache.deep_view(),
                self.consumer == old(self).consumer_id(),
                out@ == keyboard_events_of(all.take(i as int)),
                kept.deep_view() == without_keyboard(all.take(i as int)),
            decreases n - i,
        {
            proof {
                assert(all.take(i + 1).drop_last() =~= all.take(i as int));
                assert(self.cache@[i as int].deep_view() == all[i as int]);
            }
            match vec_ref(&self.cache, i) {
                InputEvent::Keyboard(k) => {
                    out.push(*k);
                },
                other => {
                    kept.push(other.clone());
                    proof {
                        assert(kept.deep_view() =~= without_keyboard(all.take(i + 1)));
                    }
                },
            }
            i += 1;
        }
        proof {
            assert(all.take(n as int) =~= all);
        }
        self.cache = kept;
        out
    }

    /// Hands out the pending mouse events, in order, leaving everything
    /// else cached for the other accessors.
    pub fn mouse_events(&mut self, pool: &mut EventPool) -> (r: Vec<MouseEvent>)
        requires
            old(pool).wf(),
        ensures
            final(pool).wf(),
            final(pool).is_closed() == old(pool).is_closed(),
            final(pool).can_register() == old(pool).can_register(),
            final(pool).source_view() == old(pool).source_view(),
            final(self).consumer_id() == old(self).consumer_id(),
            ({
                let qs = old(pool).queues();
                let id = old(self).consumer_id();
                let all = if qs.dom().contains(id) {
                    old(self).cached() + public_events_of(qs[id])
                } else {
                    old(self).cached()
                };
                &&& r@ == mouse_events_of(all)
                &&& final(self).cached() == without_mouse(all)
                &&& final(pool).queues() == (if qs.dom().contains(id) {
                    qs.insert(id, Seq::<crate::events::InternalEventView>::empty())
                } else {
                    qs
                })
            }),
    {
        self.refresh(pool);
        let ghost all = self.cache.deep_view();
        let mut kept: Vec<InputEvent> = Vec::new();
        let mut out: Vec<MouseEvent> = Vec::new();
        let n = self.cache.len();
        let mut i: usize = 0;
        proof {
            assert(all.take(0) =~= Seq::<InputEventView>::empty());
        }
        while i < n
            invariant
                i <= n == self.cache@.len(),
                all == self.cache.deep_view(),
                self.consumer == old(self).consumer_id(),
                out@ == mouse_events_of(all.take(i as int)),
                kept.deep_view() == without_mouse(all.take(i as int)),
            decreases n - i,
        {
            proof {
                assert(all.take(i + 1).drop_last() =~= all.take(i as int));
                assert(self.cache@[i as int].deep_view() == all[i as int]);
            }
            match vec_ref(&self.cache, i) {
                InputEvent::Mouse(m) => {
                    out.push(*m);
                },
                other => {
                    kept.push(other.clone());
                    proof {
                        assert(kept.deep_view() =~= without_mouse(all.take(i + 1)));
                    }
                },
            }
            i += 1;
        }
        proof {
            assert(all.take(n as int) =~= all);
        }
        self.cache = kept;
        out
    }
}

/// A reference to the element of a vector at `i`.
fn vec_ref<T>(v: &Vec<T>, i: usize) -> (r: &T)
    requires
        i < v@.len(),
    ensures
        *r == v@[i as int],
{
    &v[i]
}

} // verus!
