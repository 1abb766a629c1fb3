//! Bounded multi-subscriber fan-out of the PTY byte stream.
//!
//! The daemon's reader task publishes each chunk it reads from the PTY
//! master; every attached client holds a subscription. Each subscriber has a
//! bounded view of the history: one that falls more than the capacity behind
//! is told it lagged and resumes from the oldest retained item, so a slow
//! subscriber never blocks the publisher and never blocks other subscribers.

use vstd::prelude::*;

verus! {

/// Model of one subscription: where it attached, where it stands, what it
/// has been handed, and whether it was ever told it lagged.
#[verifier::ext_equal]
pub struct SubView {
    /// Index into the history at which the subscription was taken.
    pub start: int,
    /// Index into the history of the next item to hand out.
    pub cursor: int,
    /// Every item this subscriber has been handed, in order.
    pub delivered: Seq<Seq<u8>>,
    /// Whether this subscriber was ever notified of lost items.
    pub lagged: bool,
}

/// Model of the fan-out channel: everything ever published, the per-
/// subscriber retention bound, the subscriptions, and whether the publisher
/// is gone.
#[verifier::ext_equal]
pub struct FanoutView {
    /// Every item ever published, in publication order.
    pub history: Seq<Seq<u8>>,
    /// How many of the newest items are retained for slow subscribers.
    pub cap: int,
    /// All subscriptions, in the order they were taken.
    pub subs: Seq<SubView>,
    /// True once the publisher has closed the channel.
    pub closed: bool,
}

/// Index of the oldest item still retained for subscribers.
pub open spec fn spec_oldest(v: FanoutView) -> int {
    if v.history.len() <= v.cap {
        0
    } else {
        v.history.len() - v.cap
    }
}

/// What holds of one subscription: its cursor sits inside the history, and
/// as long as it never lagged, what it was handed is exactly the history
/// from its start to its cursor.
pub open spec fn sub_wf(v: FanoutView, i: int) -> bool {
    let s = v.subs[i];
    &&& 0 <= s.start <= s.cursor <= v.history.len()
    &&& (!s.lagged ==> s.delivered == v.history.subrange(s.start, s.cursor))
}

/// Well-formedness of the whole channel model.
pub open spec fn spec_wf(v: FanoutView) -> bool {
    &&& v.cap >= 1
    &&& forall|i: int| 0 <= i < v.subs.len() ==> sub_wf(v, i)
}

/// A channel that has published nothing and has no subscribers.
pub open spec fn spec_new(cap: int) -> FanoutView {
    FanoutView { history: Seq::empty(), cap: cap, subs: Seq::empty(), closed: false }
}

/// Publishing appends to the history and touches no subscription.
pub open spec fn spec_publish(v: FanoutView, item: Seq<u8>) -> FanoutView {
    FanoutView { history: v.history.push(item), ..v }
}

/// Subscribing adds a fresh subscription positioned at the present end of
/// the history, so it sees exactly what is published from now on.
pub open spec fn spec_subscribe(v: FanoutView) -> FanoutView {
    FanoutView {
        subs: v.subs.push(
            SubView {
                start: v.history.len() as int,
                cursor: v.history.len() as int,
                delivered: Seq::empty(),
                lagged: false,
            },
        ),
        ..v
    }
}

/// Closing marks the publisher gone; pending items stay receivable.
pub open spec fn spec_close(v: FanoutView) -> FanoutView {
    FanoutView { closed: true, ..v }
}

/// What one receive can yield, at the model level.
pub enum RecvModel {
    /// The next item, in publication order.
    Item(Seq<u8>),
    /// The subscriber fell behind: this many items were dropped for it, and
    /// it resumes at the oldest retained item.
    Lagged(int),
    /// Nothing pending; the subscriber would wait.
    Empty,
    /// Nothing pending and the publisher is gone.
    Closed,
}

/// One receive on subscription `i`: lag notification if the cursor fell
/// out of the retained window, else the next item, else empty or closed.
pub open spec fn spec_recv(v: FanoutView, i: int) -> (FanoutView, RecvModel)
    recommends
        0 <= i < v.subs.len(),
{
    let s = v.subs[i];
    if s.cursor < spec_oldest(v) {
        (
            FanoutView {
                subs: v.subs.update(
                    i,
                    SubView { cursor: spec_oldest(v), lagged: true, ..s },
                ),
                ..v
            },
            RecvModel::Lagged(spec_oldest(v) - s.cursor),
        )
    } else if s.cursor < v.history.len() {
        (
            FanoutView {
                subs: v.subs.update(
                    i,
                    SubView {
                        cursor: s.cursor + 1,
                        delivered: s.delivered.push(v.history[s.cursor]),
                        ..s
                    },
                ),
                ..v
            },
            RecvModel::Item(v.history[s.cursor]),
        )
    } else if v.closed {
        (v, RecvModel::Closed)
    } else {
        (v, RecvModel::Empty)
    }
}

/// One live subscription: absolute positions into the published history.
#[derive(Clone, Copy)]
struct SubState {
    start: usize,
    cursor: usize,
    lagged: bool,
    delivered: Ghost<Seq<Seq<u8>>>,
}

/// The fan-out channel: it retains only the newest `cap` published items,
/// yet its model speaks of the whole history, which a ghost field keeps.
pub struct Fanout {
    cap: usize,
    base: usize,
    buf: Vec<Vec<u8>>,
    subs: Vec<SubState>,
    closed: bool,
    hist: Ghost<Seq<Seq<u8>>>,
}

/// What one receive handed back.
#[derive(Debug, PartialEq, Eq)]
pub enum RecvOutcome {
    /// The next item, in publication order.
    Item(Vec<u8>),
    /// This subscriber lost this many items and resumes at the oldest
    /// retained one.
    Lagged(usize),
    /// Nothing pending; wait for the publisher.
    Empty,
    /// Nothing pending and the publisher is gone.
    Closed,
}

impl View for Fanout {
    type V = FanoutView;

    closed spec fn view(&self) -> FanoutView {
        FanoutView {
            history: self.hist@,
            cap: self.cap as int,
            subs: Seq::new(
                self.subs@.len(),
                |i: int|
                    SubView {
                        start: self.subs@[i].start as int,
                        cursor: self.subs@[i].cursor as int,
                        delivered: self.subs@[i].delivered@,
                        lagged: self.subs@[i].lagged,
                    },
            ),
            closed: self.closed,
        }
    }
}

impl Fanout {
    /// The retained window sits where the model says, and the whole state
    /// is well formed.
    pub closed spec fn inv(&self) -> bool {
        &&& self.hist@.len() <= usize::MAX
        &&& self.base as int == spec_oldest(self@)
        &&& self.base + self.buf@.len() == self.hist@.len()
        &&& (forall|k: int|
            0 <= k < self.buf@.len() ==> self.buf@[k]@ == self.hist@[self.base + k])
        &&& spec_wf(self@)
    }

    /// A well-formed channel's model is well formed.
    pub proof fn lemma_inv_wf(&self)
        requires
            self.inv(),
        ensures
            spec_wf(self@),
    {
    }

    /// A fresh channel that retains the newest `cap` items per subscriber.
    pub fn new(cap: usize) -> (r: Fanout)
        requires
            cap >= 1,
        ensures
            r.inv(),
            r@ == spec_new(cap as int),
    {
        let r = Fanout {
            cap,
            base: 0,
            buf: Vec::new(),
            subs: Vec::new(),
            closed: false,
            hist: Ghost(Seq::empty()),
        };
        proof {
            assert(r@ =~= spec_new(cap as int));
        }
        r
    }

    /// How many subscriptions have been taken.
    pub fn subscriber_count(&self) -> (n: usize)
        ensures
            n as int == self@.subs.len(),
    {
        self.subs.len()
    }

    /// How many items have ever been published.
    pub fn published_count(&self) -> (n: usize)
        requires
            self.inv(),
        ensures
            n as int == self@.history.len(),
    {
        self.base + self.buf.len()
    }

    /// Whether the publisher has closed the channel.
    pub fn is_closed(&self) -> (b: bool)
        ensures
            b == self@.closed,
    {
        self.closed
    }

    /// Take a fresh subscription; it observes exactly what is published
    /// from this moment on. Returns its handle.
    pub fn subscribe(&mut self) -> (id: usize)
        requires
            old(self).inv(),
        ensures
            final(self).inv(),
            id as int == old(self)@.subs.len(),
            final(self)@ == spec_subscribe(old(self)@),
    {
        let pos = self.base + self.buf.len();
        let id = self.subs.len();
        self.subs.push(
            SubState { start: pos, cursor: pos, lagged: false, delivered: Ghost(Seq::empty()) },
        );
        proof {
            assert(self@ =~= spec_subscribe(old(self)@));
            lemma_subscribe_wf(old(self)@);
        }
        id
    }

    /// Publish one item: every subscriber will observe it unless it lags
    /// past it; if the retained window was full, the oldest item leaves it.
    /// The publisher never waits for anyone.
    pub fn publish(&mut self, item: Vec<u8>)
        requires
            old(self).inv(),
            old(self)@.history.len() < usize::MAX,
        ensures
            final(self).inv(),
            final(self)@ == spec_publish(old(self)@, item@),
    {
        proof {
            lemma_publish_wf(old(self)@, item@);
        }
        self.hist = Ghost(self.hist@.push(item@));
        self.buf.push(item);
        if self.buf.len() > self.cap {
            self.buf.remove(0);
            self.base = self.base + 1;
        }
        proof {
            assert(self@ =~= spec_publish(old(self)@, item@));
        }
    }

    /// Mark the publisher gone; items already published stay receivable.
    pub fn close(&mut self)
        requires
            old(self).inv(),
        ensures
            final(self).inv(),
            final(self)@ == spec_close(old(self)@),
    {
        self.closed = true;
        proof {
            assert(self@ =~= spec_close(old(self)@));
            assert forall|i: int| 0 <= i < self@.subs.len() implies sub_wf(self@, i) by {
                assert(sub_wf(old(self)@, i));
                assert(self@.subs[i] == old(self)@.subs[i]);
            }
        }
    }

    /// Receive the next item on subscription `id`: a lag notification if
    /// this subscriber fell out of the retained window, else the next item,
    /// else nothing — with word whether the publisher is gone.
    pub fn recv(&mut self, id: usize) -> (r: RecvOutcome)
        requires
            old(self).inv(),
            (id as int) < old(self)@.subs.len(),
        ensures
            final(self).inv(),
            final(self)@ == spec_recv(old(self)@, id as int).0,
            match r {
                RecvOutcome::Item(d) => spec_recv(old(self)@, id as int).1 == RecvModel::Item(d@),
                RecvOutcome::Lagged(n) => spec_recv(old(self)@, id as int).1 == RecvModel::Lagged(
                    n as int,
                ),
                RecvOutcome::Empty => spec_recv(old(self)@, id as int).1 is Empty,
                RecvOutcome::Closed => spec_recv(old(self)@, id as int).1 is Closed,
            },
    {
        proof {
            lemma_recv_wf(old(self)@, id as int);
        }
        let sub = self.subs[id];
        if sub.cursor < self.base {
            let skipped = self.base - sub.cursor;
            self.subs[id] = SubState {
                start: sub.start,
                cursor: self.base,
                lagged: true,
                delivered: sub.delivered,
            };
            proof {
                assert(self@ =~= spec_recv(old(self)@, id as int).0);
            }
            RecvOutcome::Lagged(skipped)
        } else if sub.cursor < self.base + self.buf.len() {
            let item = clone_bytes(&self.buf[sub.cursor - self.base]);
            self.subs[id] = SubState {
                start: sub.start,
                cursor: sub.cursor + 1,
                lagged: sub.lagged,
                delivered: Ghost(sub.delivered@.push(item@)),
            };
            proof {
                assert(self@ =~= spec_recv(old(self)@, id as int).0);
            }
            RecvOutcome::Item(item)
        } else if self.closed {
            proof {
                assert(self@ =~= spec_recv(old(self)@, id as int).0);
            }
            RecvOutcome::Closed
        } else {
            proof {
                assert(self@ =~= spec_recv(old(self)@, id as int).0);
            }
            RecvOutcome::Empty
        }
    }
}

/// A copy of the bytes, byte for byte.
fn clone_bytes(v: &Vec<u8>) -> (r: Vec<u8>)
    ensures
        r@ == v@,
{
    let mut r: Vec<u8> = Vec::new();
    let mut i: usize = 0;
    while i < v.len()
        invariant
            i <= v@.len(),
            r@ == v@.subrange(0, i as int),
        decreases v@.len() - i,
    {
        let b: u8 = v[i];
        r.push(b);
        i = i + 1;
        assert(r@ =~= v@.subrange(0, i as int));
    }
    assert(r@ =~= v@);
    r
}

/// Publishing preserves well-formedness and disturbs no subscription.
pub proof fn lemma_publish_wf(v: FanoutView, item: Seq<u8>)
    requires
        spec_wf(v),
    ensures
        spec_wf(spec_publish(v, item)),
{
    let v2 = spec_publish(v, item);
    assert forall|i: int| 0 <= i < v2.subs.len() implies sub_wf(v2, i) by {
        let s = v.subs[i];
        assert(sub_wf(v, i));
        assert(v2.history.subrange(s.start, s.cursor) =~= v.history.subrange(s.start, s.cursor));
    }
}

/// Subscribing preserves well-formedness.
pub proof fn lemma_subscribe_wf(v: FanoutView)
    requires
        spec_wf(v),
    ensures
        spec_wf(spec_subscribe(v)),
{
    let v2 = spec_subscribe(v);
    assert forall|i: int| 0 <= i < v2.subs.len() implies sub_wf(v2, i) by {
        if i < v.subs.len() {
            assert(sub_wf(v, i));
        } else {
            let s = v2.subs[i];
            assert(s.delivered =~= v2.history.subrange(s.start, s.cursor));
        }
    }
}

/// Receiving preserves well-formedness.
pub proof fn lemma_recv_wf(v: FanoutView, i: int)
    requires
        spec_wf(v),
        0 <= i < v.subs.len(),
    ensures
        spec_wf(spec_recv(v, i).0),
{
    let v2 = spec_recv(v, i).0;
    let s = v.subs[i];
    assert(sub_wf(v, i));
    assert forall|k: int| 0 <= k < v2.subs.len() implies sub_wf(v2, k) by {
        assert(sub_wf(v, k));
        if k == i && s.cursor >= spec_oldest(v) && s.cursor < v.history.len() && !s.lagged {
            assert(v2.subs[k].delivered =~= v.history.subrange(s.start, s.cursor + 1));
        }
    }
}

/// Byte-order preservation: a subscriber that never lagged has been handed
/// exactly the published items from its subscription point to its cursor —
/// the same items, in the same order, none dropped, none duplicated — and
/// so the bytes it has seen are exactly the published bytes in order.
pub proof fn lemma_no_lag_delivery(v: FanoutView, i: int)
    requires
        spec_wf(v),
        0 <= i < v.subs.len(),
        !v.subs[i].lagged,
    ensures
        v.subs[i].delivered == v.history.subrange(v.subs[i].start, v.subs[i].cursor),
        v.subs[i].delivered.flatten() == v.history.subrange(
            v.subs[i].start,
            v.subs[i].cursor,
        ).flatten(),
{
    assert(sub_wf(v, i));
}

/// Multi-subscriber fairness: two subscribers attached at the same moment
/// that have not lagged observe the same stream — whichever has read less
/// holds exactly a prefix of what the other holds.
pub proof fn lemma_same_start_same_stream(v: FanoutView, i: int, j: int)
    requires
        spec_wf(v),
        0 <= i < v.subs.len(),
        0 <= j < v.subs.len(),
        v.subs[i].start == v.subs[j].start,
        !v.subs[i].lagged,
        !v.subs[j].lagged,
        v.subs[i].cursor <= v.subs[j].cursor,
    ensures
        v.subs[i].delivered == v.subs[j].delivered.subrange(
            0,
            v.subs[i].delivered.len() as int,
        ),
{
    let s = v.subs[i].start;
    let ci = v.subs[i].cursor;
    let cj = v.subs[j].cursor;
    assert(sub_wf(v, i));
    assert(sub_wf(v, j));
    assert(v.history.subrange(s, ci) =~= v.history.subrange(s, cj).subrange(0, ci - s));
}

/// Receive isolation: receiving on one subscription leaves the history,
/// the capacity, the closed flag, and every other subscription untouched.
pub proof fn lemma_recv_isolation(v: FanoutView, i: int, j: int)
    requires
        0 <= i < v.subs.len(),
        0 <= j < v.subs.len(),
        i != j,
    ensures
        spec_recv(v, i).0.history == v.history,
        spec_recv(v, i).0.cap == v.cap,
        spec_recv(v, i).0.closed == v.closed,
        spec_recv(v, i).0.subs.len() == v.subs.len(),
        spec_recv(v, i).0.subs[j] == v.subs[j],
{
}

/// Detach independence, seen from the channel: a new subscriber taken at
/// any moment observes output published after it attached; its first
/// receive after one publish yields exactly that item.
pub proof fn lemma_attach_observes_new_output(v: FanoutView, d: Seq<u8>)
    requires
        spec_wf(v),
    ensures
        ({
            let id = v.subs.len() as int;
            let v2 = spec_publish(spec_subscribe(v), d);
            spec_recv(v2, id).1 == RecvModel::Item(d)
        }),
{
    let id = v.subs.len() as int;
    let v2 = spec_publish(spec_subscribe(v), d);
    assert(v2.subs[id].cursor == v.history.len());
    assert(v2.history[v.history.len() as int] == d);
}

} // verus!
