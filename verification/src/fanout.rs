//! The bounded, lossy fan-out discipline of the broadcaster: one producer,
//! many subscribers, each with a bounded queue. Publishing never waits for a
//! slow subscriber: a subscriber whose queue is full misses the event and its
//! lag counter grows instead, so durability stays with the broker rather than
//! with this in-memory primitive.

use vstd::prelude::*;

verus! {

/// Ghost state of one subscriber: its pending events, oldest first, how many
/// events it has missed since it last read, and whether it is still
/// registered.
#[verifier::ext_equal]
pub ghost struct SubView {
    pub queue: Seq<Seq<char>>,
    pub missed: u64,
    pub open: bool,
}

/// One subscriber's bounded receive queue.
pub struct Subscriber {
    queue: Vec<String>,
    missed: u64,
    open: bool,
}

impl View for Subscriber {
    type V = SubView;

    closed spec fn view(&self) -> SubView {
        SubView { queue: self.queue.deep_view(), missed: self.missed, open: self.open }
    }
}

/// A bounded single-producer multi-consumer fan-out. Subscriber handles are
/// indices into the registry; a handle stays valid after `unsubscribe`, its
/// entry is merely closed.
pub struct Fanout {
    capacity: usize,
    subs: Vec<Subscriber>,
}

/// What one read attempt yields: the oldest pending event; a lag report
/// saying how many events were missed since the last read; nothing pending;
/// or a closed subscription.
#[derive(Debug, PartialEq)]
pub enum RecvOutcome {
    Event(String),
    Lagged(u64),
    Empty,
    Closed,
}

/// A lag counter grows by one per missed event and pins at its maximum.
pub open spec fn bump_missed(m: u64) -> u64 {
    if m < u64::MAX {
        (m + 1) as u64
    } else {
        m
    }
}

/// A subscriber receives an event only while it is open with room in its
/// queue.
pub open spec fn sub_ready(s: SubView, cap: nat) -> bool {
    s.open && s.queue.len() < cap
}

/// What one publish does to one subscriber: append the event if it is ready,
/// count a miss if it is open but saturated, leave it alone if it is closed.
pub open spec fn deliver_to(s: SubView, e: Seq<char>, cap: nat) -> SubView {
    if !s.open {
        s
    } else if s.queue.len() < cap {
        SubView { queue: s.queue.push(e), missed: s.missed, open: s.open }
    } else {
        SubView { queue: s.queue, missed: bump_missed(s.missed), open: s.open }
    }
}

/// One publish, applied to every subscriber.
pub open spec fn publish_subs(subs: Seq<SubView>, e: Seq<char>, cap: nat) -> Seq<SubView> {
    Seq::new(subs.len(), |i: int| deliver_to(subs[i], e, cap))
}

/// How many subscribers a publish reaches: those open with room.
pub open spec fn ready_count(subs: Seq<SubView>, cap: nat) -> nat
    decreases subs.len(),
{
    if subs.len() == 0 {
        0
    } else {
        ready_count(subs.drop_last(), cap) + if sub_ready(subs.last(), cap) {
            1 as nat
        } else {
            0 as nat
        }
    }
}

/// Extending the counted prefix by one subscriber adds one exactly when that
/// subscriber is ready.
proof fn lemma_ready_count_step(subs: Seq<SubView>, i: int, cap: nat)
    requires
        0 <= i < subs.len(),
    ensures
        ready_count(subs.take(i + 1), cap) == ready_count(subs.take(i), cap) + if sub_ready(
            subs[i],
            cap,
        ) {
            1 as nat
        } else {
            0 as nat
        },
{
    assert(subs.take(i + 1).drop_last() =~= subs.take(i));
    assert(subs.take(i + 1).last() == subs[i]);
}

/// No publish reaches more subscribers than there are.
pub proof fn lemma_ready_count_le_len(subs: Seq<SubView>, cap: nat)
    ensures
        ready_count(subs, cap) <= subs.len(),
    decreases subs.len(),
{
    if subs.len() > 0 {
        lemma_ready_count_le_len(subs.drop_last(), cap);
    }
}

/// When every subscriber is ready, a publish reaches all of them.
pub proof fn lemma_ready_count_all(subs: Seq<SubView>, cap: nat)
    requires
        forall|i: int| 0 <= i < subs.len() ==> sub_ready(#[trigger] subs[i], cap),
    ensures
        ready_count(subs, cap) == subs.len(),
    decreases subs.len(),
{
    if subs.len() > 0 {
        lemma_ready_count_all(subs.drop_last(), cap);
    }
}

/// A whole run of publishes, first event first.
pub open spec fn publish_all(subs: Seq<SubView>, events: Seq<Seq<char>>, cap: nat) -> Seq<
    SubView,
>
    decreases events.len(),
{
    if events.len() == 0 {
        subs
    } else {
        publish_all(publish_subs(subs, events[0], cap), events.drop_first(), cap)
    }
}

/// Fan-out under capacity: starting from open subscribers whose queues all
/// hold `q` events, a run of publishes that stays within capacity reaches
/// every subscriber every time — each publish counts all of them, and at
/// the end each subscriber holds its old queue followed by the whole run,
/// in order, with its lag counter untouched.
pub proof fn lemma_publish_run_under_capacity(
    subs: Seq<SubView>,
    events: Seq<Seq<char>>,
    cap: nat,
    q: nat,
)
    requires
        forall|i: int|
            0 <= i < subs.len() ==> (#[trigger] subs[i]).open && subs[i].queue.len() == q,
        q + events.len() <= cap,
    ensures
        forall|k: int|
            0 <= k < events.len() ==> ready_count(
                #[trigger] publish_all(subs, events.take(k), cap),
                cap,
            ) == subs.len(),
        publish_all(subs, events, cap).len() == subs.len(),
        forall|i: int|
            0 <= i < subs.len() ==> {
                let t = #[trigger] publish_all(subs, events, cap)[i];
                &&& t.open
                &&& t.queue == subs[i].queue + events
                &&& t.missed == subs[i].missed
            },
    decreases events.len(),
{
    if events.len() == 0 {
        assert forall|i: int| 0 <= i < subs.len() implies {
            let t = #[trigger] publish_all(subs, events, cap)[i];
            &&& t.open
            &&& t.queue == subs[i].queue + events
            &&& t.missed == subs[i].missed
        } by {
            assert(subs[i].queue + events =~= subs[i].queue);
        }
    } else {
        let e0 = events[0];
        let rest = events.drop_first();
        let subs1 = publish_subs(subs, e0, cap);
        assert forall|i: int| 0 <= i < subs1.len() implies (#[trigger] subs1[i]).open
            && subs1[i].queue.len() == q + 1 by {
            assert(subs1[i] == deliver_to(subs[i], e0, cap));
        }
        lemma_publish_run_under_capacity(subs1, rest, cap, (q + 1) as nat);
        assert forall|i: int| 0 <= i < subs.len() implies sub_ready(#[trigger] subs[i], cap) by {}
        lemma_ready_count_all(subs, cap);
        assert forall|k: int| 0 <= k < events.len() implies ready_count(
            #[trigger] publish_all(subs, events.take(k), cap),
            cap,
        ) == subs.len() by {
            if k == 0 {
                assert(events.take(0) =~= Seq::<Seq<char>>::empty());
                assert(publish_all(subs, events.take(0), cap) == subs);
            } else {
                assert(events.take(k).len() > 0);
                assert(events.take(k)[0] == e0);
                assert(events.take(k).drop_first() =~= rest.take(k - 1));
                assert(publish_all(subs, events.take(k), cap) == publish_all(
                    subs1,
                    rest.take(k - 1),
                    cap,
                ));
            }
        }
        assert(publish_all(subs, events, cap) == publish_all(subs1, rest, cap));
        assert forall|i: int| 0 <= i < subs.len() implies {
            let t = #[trigger] publish_all(subs, events, cap)[i];
            &&& t.open
            &&& t.queue == subs[i].queue + events
            &&& t.missed == subs[i].missed
        } by {
            assert(subs1[i] == deliver_to(subs[i], e0, cap));
            assert(publish_all(subs1, rest, cap)[i].queue == subs1[i].queue + rest);
            assert(subs[i].queue.push(e0) + rest =~= subs[i].queue + events);
        }
    }
}

impl Fanout {
    /// The capacity every subscriber queue is bounded by.
    pub closed spec fn cap(&self) -> nat {
        self.capacity as nat
    }

    /// The subscriber registry, as ghost state.
    pub closed spec fn subs_view(&self) -> Seq<SubView> {
        Seq::new(self.subs@.len(), |i: int| self.subs@[i]@)
    }

    /// The standing invariant: a positive capacity that no queue exceeds.
    pub open spec fn wf(&self) -> bool {
        &&& self.cap() >= 1
        &&& forall|i: int|
            0 <= i < self.subs_view().len() ==> (#[trigger] self.subs_view()[i]).queue.len()
                <= self.cap()
    }

    /// Create a fan-out whose subscriber queues hold at most `capacity`
    /// pending events each.
    pub fn new(capacity: usize) -> (r: Fanout)
        requires
            capacity >= 1,
        ensures
            r.cap() == capacity,
            r.subs_view() =~= Seq::<SubView>::empty(),
            r.wf(),
    {
        Fanout { capacity, subs: Vec::new() }
    }

    /// Register a new subscriber with an empty queue; the handle returned
    /// stands for it from here on.
    pub fn subscribe(&mut self) -> (h: usize)
        ensures
            final(self).cap() == old(self).cap(),
            h == old(self).subs_view().len(),
            final(self).subs_view() == old(self).subs_view().push(
                SubView { queue: Seq::empty(), missed: 0, open: true },
            ),
            old(self).wf() ==> final(self).wf(),
    {
        let h = self.subs.len();
        self.subs.push(Subscriber { queue: Vec::new(), missed: 0, open: true });
        proof {
            assert(self.subs_view() =~~= old(self).subs_view().push(
                SubView { queue: Seq::empty(), missed: 0, open: true },
            ));
        }
        h
    }

    /// Release a subscriber: its entry is closed and its pending events are
    /// dropped. Safe to call however far behind the subscriber fell.
    pub fn unsubscribe(&mut self, h: usize)
        requires
            h < old(self).subs_view().len(),
        ensures
            final(self).cap() == old(self).cap(),
            final(self).subs_view() == old(self).subs_view().update(
                h as int,
                SubView {
                    queue: Seq::empty(),
                    missed: old(self).subs_view()[h as int].missed,
                    open: false,
                },
            ),
            old(self).wf() ==> final(self).wf(),
    {
        let sub = &mut self.subs[h];
        sub.open = false;
        sub.queue = Vec::new();
        proof {
            assert(self.subs_view() =~~= old(self).subs_view().update(
                h as int,
                SubView {
                    queue: Seq::empty(),
                    missed: old(self).subs_view()[h as int].missed,
                    open: false,
                },
            ));
        }
    }

    /// Publish one event to every subscriber and report how many received
    /// it: exactly those that were open with room. A saturated subscriber
    /// misses the event and its lag counter grows; the producer never
    /// waits.
    pub fn publish(&mut self, event: &str) -> (delivered: usize)
        ensures
            final(self).cap() == old(self).cap(),
            final(self).subs_view() == publish_subs(
                old(self).subs_view(),
                event@,
                old(self).cap(),
            ),
            delivered == ready_count(old(self).subs_view(), old(self).cap()),
            old(self).wf() ==> final(self).wf(),
    {
        let ghost orig = self.subs_view();
        let ghost cap = self.cap();
        let capacity = self.capacity;
        let n = self.subs.len();
        let mut delivered: usize = 0;
        let mut i: usize = 0;
        while i < n
            invariant
                n == self.subs@.len(),
                orig.len() == n,
                i <= n,
                self.capacity == capacity,
                cap == capacity as nat,
                forall|j: int| i <= j < n ==> self.subs_view()[j] == orig[j],
                forall|j: int|
                    0 <= j < i ==> self.subs_view()[j] == deliver_to(#[trigger] orig[j], event@, cap),
                delivered == ready_count(orig.take(i as int), cap),
                delivered <= i,
            decreases n - i,
        {
            proof {
                lemma_ready_count_step(orig, i as int, cap);
            }
            let ev = event.to_owned();
            let sub = &mut self.subs[i];
            if sub.open {
                if sub.queue.len() < capacity {
                    sub.queue.push(ev);
                    delivered = delivered + 1;
                } else {
                    if sub.missed < u64::MAX {
                        sub.missed = sub.missed + 1;
                    }
                }
            }
            proof {
                assert(self.subs_view()[i as int].queue =~= deliver_to(
                    orig[i as int],
                    event@,
                    cap,
                ).queue);
                assert(self.subs_view()[i as int] == deliver_to(orig[i as int], event@, cap));
            }
            i = i + 1;
        }
        proof {
            assert(orig.take(n as int) =~= orig);
            assert(self.subs_view() =~~= publish_subs(orig, event@, cap));
        }
        delivered
    }

    /// One read attempt by subscriber `h`: a lag report takes precedence
    /// over pending events, so a subscriber that fell behind learns how many
    /// events it missed before it reads on.
    pub fn recv(&mut self, h: usize) -> (r: RecvOutcome)
        requires
            h < old(self).subs_view().len(),
        ensures
            final(self).cap() == old(self).cap(),
            final(self).subs_view().len() == old(self).subs_view().len(),
            forall|j: int|
                0 <= j < old(self).subs_view().len() && j != h ==> final(self).subs_view()[j]
                    == old(self).subs_view()[j],
            ({
                let s = old(self).subs_view()[h as int];
                let t = final(self).subs_view()[h as int];
                if !s.open {
                    r is Closed && t == s
                } else if s.missed > 0 {
                    &&& r == RecvOutcome::Lagged(s.missed)
                    &&& t == SubView { queue: s.queue, missed: 0, open: true }
                } else if s.queue.len() > 0 {
                    &&& r matches RecvOutcome::Event(e) && e@ == s.queue[0]
                    &&& t == SubView { queue: s.queue.drop_first(), missed: 0, open: true }
                } else {
                    r is Empty && t == s
                }
            }),
            old(self).wf() ==> final(self).wf(),
    {
        let ghost orig = self.subs_view();
        let sub = &mut self.subs[h];
        let r = if !sub.open {
            RecvOutcome::Closed
        } else if sub.missed > 0 {
            let m = sub.missed;
            sub.missed = 0;
            RecvOutcome::Lagged(m)
        } else if sub.queue.len() > 0 {
            let e = sub.queue.remove(0);
            RecvOutcome::Event(e)
        } else {
            RecvOutcome::Empty
        };
        proof {
            let s = orig[h as int];
            let t = self.subs_view()[h as int];
            if s.open && s.missed == 0 && s.queue.len() > 0 {
                assert(t.queue =~= s.queue.drop_first());
            }
            assert(forall|j: int|
                0 <= j < orig.len() && j != h ==> self.subs_view()[j] == orig[j]);
            if old(self).wf() {
                assert forall|j: int|
                    0 <= j < self.subs_view().len() implies (#[trigger] self.subs_view()[j]).queue.len()
                    <= self.cap() by {
                    assert(orig[j].queue.len() <= self.cap());
                }
            }
        }
        r
    }
}

} // verus!
