//! The broadcast channel that fans decoded events out to every registered
//! consumer: one producer publishes, every consumer owns a private queue and
//! drains it at its own pace.
//!
//! The channel's mathematical state is a map from consumer identity to the
//! consumer's pending queue.  Publishing appends one event to every queue;
//! registering adds a fresh, empty queue — so a consumer registered after an
//! event was published never sees that event; closing marks the producer
//! side as gone, which consumers observe as end-of-stream once their queue
//! drains.

use crate::events::{InternalEvent, InternalEventView};
use vstd::prelude::*;

verus! {

/// What a non-blocking read of a consumer queue can yield: nothing yet (but
/// the stream is alive), the next event, or end-of-stream.  Distinguishing
/// `Pending` from `Closed` keeps transient emptiness apart from termination.
#[derive(Debug)]
pub enum PollResult<T> {
    /// Nothing is queued right now; more events may still arrive.
    Pending,
    /// The next queued value.
    Event(T),
    /// No event is queued and none will ever arrive.
    Closed,
}

/// One registered consumer: its identity and its pending events.
struct ConsumerSlot {
    id: u64,
    queue: Vec<InternalEvent>,
}

/// The single-producer, multiple-consumer broadcast channel.
pub struct EventChannel {
    slots: Vec<ConsumerSlot>,
    next_id: u64,
    closed: bool,
}

/// True when no two slots share an identity.
spec fn unique_ids(s: Seq<ConsumerSlot>) -> bool {
    forall|i: int, j: int| 0 <= i < j < s.len() ==> s[i].id != s[j].id
}

/// The queue map described by a sequence of slots.
spec fn queues_of(s: Seq<ConsumerSlot>) -> Map<u64, Seq<InternalEventView>>
    decreases s.len(),
{
    if s.len() == 0 {
        Map::empty()
    } else {
        queues_of(s.drop_last()).insert(s.last().id, s.last().queue.deep_view())
    }
}

/// With unique identities, the queue map reads back exactly the slots.
proof fn lemma_queues_of_index(s: Seq<ConsumerSlot>)
    requires
        unique_ids(s),
    ensures
        queues_of(s).dom().finite(),
        queues_of(s).dom().len() == s.len(),
        forall|id: u64| #[trigger]
            queues_of(s).dom().contains(id) ==> exists|i: int| 0 <= i < s.len() && s[i].id == id,
        forall|i: int| 0 <= i < s.len() ==> queues_of(s).dom().contains(#[trigger] s[i].id),
        forall|i: int|
            0 <= i < s.len() ==> queues_of(s)[#[trigger] s[i].id] == s[i].queue.deep_view(),
    decreases s.len(),
{
    if s.len() > 0 {
        let head = s.drop_last();
        assert(unique_ids(head)) by {
            assert(forall|i: int, j: int|
                0 <= i < j < head.len() ==> head[i] == s[i] && head[j] == s[j]);
        }
        lemma_queues_of_index(head);
        assert(!queues_of(head).dom().contains(s.last().id)) by {
            if queues_of(head).dom().contains(s.last().id) {
                let i = choose|i: int| 0 <= i < head.len() && head[i].id == s.last().id;
                assert(s[i].id == s[s.len() - 1].id);
            }
        }
        assert(forall|i: int| 0 <= i < s.len() - 1 ==> s[i] == head[i]);
        assert(forall|i: int|
            0 <= i < s.len() - 1 ==> #[trigger] s[i].id != s[s.len() - 1].id);
    }
}

/// Publishing one event appends it to every queue.
pub open spec fn spec_publish(
    qs: Map<u64, Seq<InternalEventView>>,
    e: InternalEventView,
) -> Map<u64, Seq<InternalEventView>> {
    Map::new(|id: u64| qs.dom().contains(id), |id: u64| qs[id].push(e))
}

/// Publishing a sequence of events, one after the other.
pub open spec fn spec_publish_all(
    qs: Map<u64, Seq<InternalEventView>>,
    es: Seq<InternalEventView>,
) -> Map<u64, Seq<InternalEventView>>
    decreases es.len(),
{
    if es.len() == 0 {
        qs
    } else {
        spec_publish_all(spec_publish(qs, es[0]), es.skip(1))
    }
}

/// Fan-out law: however many consumers are registered and however many
/// events are published, every registered consumer's queue receives exactly
/// the published sequence, in order, after what it already held.
pub proof fn lemma_fan_out(
    qs: Map<u64, Seq<InternalEventView>>,
    es: Seq<InternalEventView>,
    id: u64,
)
    requires
        qs.dom().contains(id),
    ensures
        spec_publish_all(qs, es).dom() == qs.dom(),
        spec_publish_all(qs, es)[id] == qs[id] + es,
    decreases es.len(),
{
    if es.len() == 0 {
        assert(qs[id] + es =~= qs[id]);
    } else {
        let qs1 = spec_publish(qs, es[0]);
        assert(qs1.dom() =~= qs.dom());
        lemma_fan_out(qs1, es.skip(1), id);
        assert(qs1[id] + es.skip(1) =~= qs[id] + es);
    }
}

/// Fan-out from registration: a consumer whose queue was empty when the
/// publishing started — as every queue is at registration — observes the
/// published sequence exactly.
pub proof fn lemma_fan_out_from_registration(
    qs: Map<u64, Seq<InternalEventView>>,
    es: Seq<InternalEventView>,
    id: u64,
)
    requires
        qs.dom().contains(id),
        qs[id] == Seq::<InternalEventView>::empty(),
    ensures
        spec_publish_all(qs, es)[id] == es,
{
    lemma_fan_out(qs, es, id);
    assert(qs[id] + es =~= es);
}

impl EventChannel {
    /// The abstract state: each registered consumer's pending queue.
    pub closed spec fn queues(&self) -> Map<u64, Seq<InternalEventView>> {
        queues_of(self.slots@)
    }

    /// True once the producer side is gone for good.
    pub closed spec fn is_closed(&self) -> bool {
        self.closed
    }

    /// True while the channel can still mint a fresh consumer identity.
    pub closed spec fn can_register(&self) -> bool {
        self.next_id < u64::MAX
    }

    /// Internal consistency: identities are unique and below the mint.
    pub closed spec fn wf(&self) -> bool {
        &&& unique_ids(self.slots@)
        &&& forall|i: int| 0 <= i < self.slots@.len() ==> (#[trigger] self.slots@[i].id)
            < self.next_id
    }

    /// A consumer is registered when the queue map knows its identity.
    pub open spec fn spec_is_registered(&self, id: u64) -> bool {
        self.queues().dom().contains(id)
    }

    /// The queue map of a consistent channel is finite.
    pub proof fn lemma_dom_finite(&self)
        requires
            self.wf(),
        ensures
            self.queues().dom().finite(),
    {
        lemma_queues_of_index(self.slots@);
    }

    /// Says without asking the caller to prove anything whether a fresh
    /// consumer identity can still be minted.
    pub fn can_register_now(&self) -> (r: bool)
        ensures
            r == self.can_register(),
    {
        self.next_id < u64::MAX
    }

    /// Creates a channel with no consumers, open for events.
    pub fn new() -> (r: EventChannel)
        ensures
            r.wf(),
            r.queues() == Map::<u64, Seq<InternalEventView>>::empty(),
            !r.is_closed(),
            r.can_register(),
    {
        let r = EventChannel { slots: Vec::new(), next_id: 0, closed: false };
        proof {
            assert(r.slots@.len() == 0);
        }
        r
    }

    /// Registers a new consumer and returns its identity; the new queue is
    /// empty, so the consumer sees only events published from now on.
    pub fn register(&mut self) -> (id: u64)
        requires
            old(self).wf(),
            old(self).can_register(),
        ensures
            final(self).wf(),
            !old(self).spec_is_registered(id),
            final(self).queues() == old(self).queues().insert(
                id,
                Seq::<InternalEventView>::empty(),
            ),
            final(self).is_closed() == old(self).is_closed(),
    {
        proof {
            lemma_queues_of_index(old(self).slots@);
        }
        let id = self.next_id;
        self.next_id = self.next_id + 1;
        self.slots.push(ConsumerSlot { id, queue: Vec::new() });
        proof {
            let s = self.slots@;
            assert(s.drop_last() =~= old(self).slots@);
            assert(s.last().id == id);
            assert(s.last().queue.deep_view() =~= Seq::<InternalEventView>::empty());
            assert(forall|i: int| 0 <= i < s.len() - 1 ==> s[i] == old(self).slots@[i]);
            if old(self).spec_is_registered(id) {
                let i = choose|i: int|
                    0 <= i < old(self).slots@.len() && old(self).slots@[i].id == id;
                assert(old(self).slots@[i].id < old(self).next_id);
            }
        }
        id
    }

    /// Deregisters a consumer; its identity and pending queue are forgotten.
    /// Deregistering an unknown identity changes nothing.
    pub fn deregister(&mut self, id: u64)
        requires
            old(self).wf(),
        ensures
            final(self).wf(),
            final(self).queues() == old(self).queues().remove(id),
            final(self).is_closed() == old(self).is_closed(),
            final(self).can_register() == old(self).can_register(),
    {
        let ghost olds = self.slots@;
        let n = self.slots.len();
        let mut i: usize = 0;
        while i < n
            invariant
                i <= n == self.slots@.len(),
                self.slots@ == olds,
                olds == old(self).slots@,
                self.next_id == old(self).next_id,
                self.closed == old(self).closed,
                old(self).wf(),
                self.wf(),
                forall|j: int| 0 <= j < i ==> #[trigger] olds[j].id != id,
            decreases n - i,
        {
            if self.slots[i].id == id {
                proof {
                    lemma_remove_queues(olds, i as int);
                }
                let _slot = self.slots.remove(i);
                proof {
                    assert(forall|p: int|
                        0 <= p < self.slots@.len() ==> #[trigger] self.slots@[p] == (if p < i {
                            olds[p]
                        } else {
                            olds[p + 1]
                        }));
                    assert(unique_ids(self.slots@));
                    assert(forall|p: int|
                        0 <= p < self.slots@.len() ==> (#[trigger] self.slots@[p].id)
                            < self.next_id);
                    assert(self.queues() =~= old(self).queues().remove(id));
                }
                return ;
            }
            i += 1;
        }
        proof {
            lemma_queues_of_index(olds);
            if self.spec_is_registered(id) {
                let j = choose|j: int| 0 <= j < olds.len() && olds[j].id == id;
            }
            assert(self.queues() =~= old(self).queues().remove(id));
        }
    }
    pub fn publish(&mut self, event: InternalEvent)
        requires
            old(self).wf(),
        ensures
            final(self).wf(),
            final(self).queues() == spec_publish(old(self).queues(), event.deep_view()),
            final(self).is_closed() == old(self).is_closed(),
            final(self).can_register() == old(self).can_register(),
    {
        let ghost olds = self.slots@;
        let n = self.slots.len();
        let mut i: usize = 0;
        while i < n
            invariant
                i <= n == self.slots@.len(),
                olds.len() == n,
                olds == old(self).slots@,
                unique_ids(olds),
                self.next_id == old(self).next_id,
                self.closed == old(self).closed,
                old(self).wf(),
                forall|j: int| 0 <= j < n ==> #[trigger] self.slots@[j].id == olds[j].id,
                forall|j: int|
                    i <= j < n ==> #[trigger] self.slots@[j].queue.deep_view()
                        == olds[j].queue.deep_view(),
                forall|j: int|
                    0 <= j < i ==> #[trigger] self.slots@[j].queue.deep_view()
                        == olds[j].queue.deep_view().push(event.deep_view()),
            decreases n - i,
        {
            let ev = event.clone();
            push_queue_at(&mut self.slots, i, ev);
            i += 1;
        }
        proof {
            lemma_same_shape_unique(olds, self.slots@);
            lemma_queues_of_index(olds);
            lemma_queues_of_index(self.slots@);
            let qs = queues_of(olds);
            let ev = event.deep_view();
            assert forall|id: u64| #[trigger] qs.dom().contains(id) implies self.queues()
                .dom()
                .contains(id) && self.queues()[id] == qs[id].push(ev) by {
                let k = choose|k: int| 0 <= k < olds.len() && olds[k].id == id;
                assert(self.slots@[k].id == id);
                assert(self.queues()[self.slots@[k].id] == self.slots@[k].queue.deep_view());
                assert(qs[olds[k].id] == olds[k].queue.deep_view());
            }
            assert forall|id: u64| #[trigger] self.queues().dom().contains(id) implies qs
                .dom()
                .contains(id) by {
                let k = choose|k: int| 0 <= k < self.slots@.len() && self.slots@[k].id == id;
                assert(olds[k].id == id);
            }
            assert(self.queues() =~= spec_publish(qs, ev));
        }
    }

    /// Marks the producer side as gone; queued events remain readable, and
    /// drained consumers observe end-of-stream from now on.
    pub fn close(&mut self)
        requires
            old(self).wf(),
        ensures
            final(self).wf(),
            final(self).queues() == old(self).queues(),
            final(self).is_closed(),
            final(self).can_register() == old(self).can_register(),
    {
        self.closed = true;
    }

    /// Says whether a consumer identity is currently registered.
    pub fn is_registered(&self, id: u64) -> (r: bool)
        requires
            self.wf(),
        ensures
            r == self.spec_is_registered(id),
    {
        proof {
            lemma_queues_of_index(self.slots@);
        }
        let n = self.slots.len();
        let mut i: usize = 0;
        while i < n
            invariant
                i <= n == self.slots@.len(),
                self.wf(),
                forall|j: int| 0 <= j < i ==> #[trigger] self.slots@[j].id != id,
            decreases n - i,
        {
            if self.slots[i].id == id {
                proof {
                    lemma_queues_of_index(self.slots@);
                }
                return true;
            }
            i += 1;
        }
        proof {
            if self.spec_is_registered(id) {
                let j = choose|j: int| 0 <= j < self.slots@.len() && self.slots@[j].id == id;
            }
        }
        false
    }

    /// The number of registered consumers.
    pub fn consumer_count(&self) -> (r: usize)
        requires
            self.wf(),
        ensures
            r == self.queues().dom().len(),
    {
        proof {
            lemma_queues_of_index(self.slots@);
        }
        self.slots.len()
    }

    /// Takes the next pending event of a consumer, if one is queued; an
    /// empty queue is `Pending` while the channel is open and `Closed` once
    /// it is closed or the identity is unknown.
    pub fn pop(&mut self, id: u64) -> (r: PollResult<InternalEvent>)
        requires
            old(self).wf(),
        ensures
            final(self).wf(),
            final(self).is_closed() == old(self).is_closed(),
            final(self).can_register() == old(self).can_register(),
            ({
                let qs = old(self).queues();
                if !qs.dom().contains(id) {
                    r is Closed && final(self).queues() == qs
                } else if qs[id].len() > 0 {
                    &&& r matches PollResult::Event(e) && e.deep_view() == qs[id][0]
                    &&& final(self).queues() == qs.insert(id, qs[id].skip(1))
                } else if old(self).is_closed() {
                    r is Closed && final(self).queues() == qs
                } else {
                    r is Pending && final(self).queues() == qs
                }
            }),
    {
        let ghost olds = self.slots@;
        proof {
            lemma_queues_of_index(olds);
        }
        let n = self.slots.len();
        let mut i: usize = 0;
        while i < n
            invariant
                i <= n == self.slots@.len(),
                self.slots@ == olds,
                olds == old(self).slots@,
                unique_ids(olds),
                self.next_id == old(self).next_id,
                self.closed == old(self).closed,
                old(self).wf(),
                forall|j: int| 0 <= j < i ==> #[trigger] olds[j].id != id,
            decreases n - i,
        {
            if self.slots[i].id == id {
                proof {
                    lemma_queues_of_index(olds);
                }
                if queue_len_at(&self.slots, i) == 0 {
                    if self.closed {
                        return PollResult::Closed;
                    }
                    return PollResult::Pending;
                }
                let e = remove_queue_front(&mut self.slots, i);
                proof {
                    lemma_same_shape_unique(olds, self.slots@);
                    lemma_queues_of_index(self.slots@);
                    assert(olds[i as int].queue.deep_view().skip(1) =~= self.slots@[i as int]
                        .queue
                        .deep_view());
                    assert(self.queues() =~= queues_of(olds).insert(
                        id,
                        queues_of(olds)[id].skip(1),
                    ));
                }
                return PollResult::Event(e);
            }
            i += 1;
        }
        proof {
            if self.spec_is_registered(id) {
                let j = choose|j: int| 0 <= j < olds.len() && olds[j].id == id;
            }
        }
        PollResult::Closed
    }

    /// Drains everything a consumer has pending, in publication order; an
    /// unknown identity yields nothing.
    pub fn read_all(&mut self, id: u64) -> (r: Vec<InternalEvent>)
        requires
            old(self).wf(),
        ensures
            final(self).wf(),
            final(self).is_closed() == old(self).is_closed(),
            final(self).can_register() == old(self).can_register(),
            ({
                let qs = old(self).queues();
                if qs.dom().contains(id) {
                    r.deep_view() == qs[id] && final(self).queues() == qs.insert(
                        id,
                        Seq::<InternalEventView>::empty(),
                    )
                } else {
                    r.deep_view() == Seq::<InternalEventView>::empty() && final(self).queues()
                        == qs
                }
            }),
    {
        let ghost olds = self.slots@;
        proof {
            lemma_queues_of_index(olds);
        }
        let n = self.slots.len();
        let mut i: usize = 0;
        while i < n
            invariant
                i <= n == self.slots@.len(),
                self.slots@ == olds,
                olds == old(self).slots@,
                unique_ids(olds),
                self.next_id == old(self).next_id,
                self.closed == old(self).closed,
                old(self).wf(),
                forall|j: int| 0 <= j < i ==> #[trigger] olds[j].id != id,
            decreases n - i,
        {
            if self.slots[i].id == id {
                proof {
                    lemma_queues_of_index(olds);
                }
                let drained = take_queue_at(&mut self.slots, i);
                proof {
                    lemma_same_shape_unique(olds, self.slots@);
                    lemma_queues_of_index(self.slots@);
                    assert(self.slots@[i as int].queue.deep_view() =~= Seq::<
                        InternalEventView,
                    >::empty());
                    assert(self.queues() =~= queues_of(olds).insert(
                        id,
                        Seq::<InternalEventView>::empty(),
                    ));
                }
                return drained;
            }
            i += 1;
        }
        proof {
            if self.spec_is_registered(id) {
                let j = choose|j: int| 0 <= j < olds.len() && olds[j].id == id;
            }
        }
        let empty: Vec<InternalEvent> = Vec::new();
        proof {
            assert(empty.deep_view() =~= Seq::<InternalEventView>::empty());
        }
        empty
    }
}

/// Two slot sequences with the same identities in the same places share
/// uniqueness.
proof fn lemma_same_shape_unique(a: Seq<ConsumerSlot>, b: Seq<ConsumerSlot>)
    requires
        a.len() == b.len(),
        forall|j: int| 0 <= j < a.len() ==> #[trigger] b[j].id == a[j].id,
        unique_ids(a),
    ensures
        unique_ids(b),
{
}

/// Removing one slot removes exactly its identity from the queue map.
proof fn lemma_remove_queues(s: Seq<ConsumerSlot>, i: int)
    requires
        unique_ids(s),
        0 <= i < s.len(),
    ensures
        unique_ids(s.remove(i)),
        queues_of(s.remove(i)) =~= queues_of(s).remove(s[i].id),
    decreases s.len(),
{
    lemma_queues_of_index(s);
    let t = s.remove(i);
    assert(unique_ids(t)) by {
        assert(forall|p: int|
            0 <= p < t.len() ==> #[trigger] t[p] == (if p < i {
                s[p]
            } else {
                s[p + 1]
            }));
    }
    let head = s.drop_last();
    assert(unique_ids(head)) by {
        assert(forall|p: int, q: int|
            0 <= p < q < head.len() ==> head[p] == s[p] && head[q] == s[q]);
    }
    lemma_queues_of_index(head);
    if i == s.len() - 1 {
        assert(t =~= head);
        assert(!queues_of(head).dom().contains(s[i].id)) by {
            if queues_of(head).dom().contains(s[i].id) {
                let j = choose|j: int| 0 <= j < head.len() && head[j].id == s[i].id;
                assert(s[j].id == s[s.len() - 1].id);
            }
        }
    } else {
        lemma_remove_queues(head, i);
        assert(t.last() == s.last());
        assert(t.drop_last() =~= head.remove(i));
        assert(head[i].id == s[i].id);
        assert(s[i].id != s.last().id);
    }
}

/// The length of the queue of the slot at `i`.
fn queue_len_at(slots: &Vec<ConsumerSlot>, i: usize) -> (r: usize)
    requires
        i < slots@.len(),
    ensures
        r == slots@[i as int].queue.deep_view().len(),
{
    slots[i].queue.len()
}

/// Removes and returns the whole queue of the slot at `i`, leaving it empty.
fn take_queue_at(slots: &mut Vec<ConsumerSlot>, i: usize) -> (r: Vec<InternalEvent>)
    requires
        i < old(slots)@.len(),
    ensures
        final(slots)@.len() == old(slots)@.len(),
        forall|j: int| 0 <= j < old(slots)@.len() && j != i ==> final(slots)@[j] == old(slots)@[j],
        final(slots)@[i as int].id == old(slots)@[i as int].id,
        final(slots)@[i as int].queue.deep_view() == Seq::<InternalEventView>::empty(),
        r.deep_view() == old(slots)@[i as int].queue.deep_view(),
{
    let mut taken: Vec<InternalEvent> = Vec::new();
    let slot = &mut slots[i];
    core::mem::swap(&mut taken, &mut slot.queue);
    proof {
        assert(final(slot).queue.deep_view() =~= Seq::<InternalEventView>::empty());
    }
    taken
}

/// Appends an event to the queue of the slot at `i`.
fn push_queue_at(slots: &mut Vec<ConsumerSlot>, i: usize, event: InternalEvent)
    requires
        i < old(slots)@.len(),
    ensures
        final(slots)@.len() == old(slots)@.len(),
        forall|j: int| 0 <= j < old(slots)@.len() && j != i ==> final(slots)@[j] == old(slots)@[j],
        final(slots)@[i as int].id == old(slots)@[i as int].id,
        final(slots)@[i as int].queue.deep_view() == old(slots)@[i as int].queue.deep_view().push(
            event.deep_view(),
        ),
{
    let ghost oldq = slots@[i as int].queue.deep_view();
    let ghost ev = event.deep_view();
    let slot = &mut slots[i];
    slot.queue.push(event);
    proof {
        assert(final(slot).queue.deep_view() =~= oldq.push(ev));
    }
}

/// Removes and returns the first queued event of the slot at `i`.
fn remove_queue_front(slots: &mut Vec<ConsumerSlot>, i: usize) -> (r: InternalEvent)
    requires
        i < old(slots)@.len(),
        old(slots)@[i as int].queue.deep_view().len() > 0,
    ensures
        final(slots)@.len() == old(slots)@.len(),
        forall|j: int| 0 <= j < old(slots)@.len() && j != i ==> final(slots)@[j] == old(slots)@[j],
        final(slots)@[i as int].id == old(slots)@[i as int].id,
        final(slots)@[i as int].queue.deep_view() == old(slots)@[i as int].queue.deep_view().skip(
            1,
        ),
        r.deep_view() == old(slots)@[i as int].queue.deep_view()[0],
{
    let ghost oldq = slots@[i as int].queue.deep_view();
    let slot = &mut slots[i];
    let r = slot.queue.remove(0);
    proof {
        assert(final(slot).queue.deep_view() =~= oldq.skip(1));
    }
    r
}

} // verus!
