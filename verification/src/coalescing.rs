//! The decisions of a debounce/coalesce queue. Bursts of `add` within the
//! interval collapse into a single batch carrying the deduplicated calls, in
//! insertion order; the maximum interval bounds the wait so a continuous
//! stream still flushes. Used to debounce facet-pane selection changes into
//! one cascade recompute, never one per row.
//!
//! This is the queue's state and rules; the caller owns the clock, the
//! timer and the batch's consumer. Each operation returns the [`Step`] the
//! caller performs: arm (or re-arm, cancelling any previous) the flush timer,
//! hand a batch to the consumer, or nothing. A flush always cancels the
//! pending timer. While a batch is being consumed the consumer may call
//! `add` and `flush` again; those calls are deferred, never lost.
use vstd::laws_eq::obeys_concrete_eq;
use vstd::prelude::*;

verus! {

/// What the caller does after an operation.
#[derive(Debug)]
pub enum Step<T> {
    /// Nothing further.
    Idle,
    /// Arm the flush timer for the interval, cancelling any armed one.
    ArmTimer,
    /// Hand this batch to the consumer, then report back with
    /// [`Coalescer::performed`].
    Perform(Vec<T>),
}

/// A coalescing queue's state. Times are caller-chosen monotonic ticks (for
/// instance milliseconds).
pub struct Coalescer<T> {
    interval: u64,
    max_interval: u64,
    last_flush: u64,
    timer_armed: bool,
    performing: bool,
    pending: Vec<T>,
}

/// The ticks from `since` to `now` (none when the clock reads earlier).
pub open spec fn elapsed(now: u64, since: u64) -> int {
    if now >= since {
        now - since
    } else {
        0
    }
}

/// `s` with `x` appended unless it already holds `x`.
pub open spec fn with_call<T>(s: Seq<T>, x: T) -> Seq<T> {
    if s.contains(x) {
        s
    } else {
        s.push(x)
    }
}

/// The batch an operation hands to the consumer, if any.
pub open spec fn batch_of<T>(r: Step<T>) -> Option<Seq<T>> {
    match r {
        Step::Perform(b) => Some(b@),
        _ => None,
    }
}

/// What `add` does to the state `(pending, timer armed, performing, last
/// flush)` and which batch it hands over.
pub open spec fn add_step<T>(s: (Seq<T>, bool, bool, u64), max_interval: u64, call: T, now: u64) -> (
    (Seq<T>, bool, bool, u64),
    Option<Seq<T>>,
) {
    let p = with_call(s.0, call);
    if elapsed(now, s.3) >= max_interval {
        if s.2 {
            ((p, false, true, now), None)
        } else {
            ((Seq::empty(), false, true, now), Some(p))
        }
    } else {
        ((p, true, s.2, s.3), None)
    }
}

/// What `flush` does to the state and which batch it hands over.
pub open spec fn flush_step<T>(s: (Seq<T>, bool, bool, u64), now: u64) -> (
    (Seq<T>, bool, bool, u64),
    Option<Seq<T>>,
) {
    if s.2 {
        ((s.0, false, true, now), None)
    } else if s.0.len() == 0 {
        ((s.0, false, false, now), None)
    } else {
        ((Seq::empty(), false, true, now), Some(s.0))
    }
}

/// What `performed` does to the state.
pub open spec fn performed_step<T>(s: (Seq<T>, bool, bool, u64)) -> (Seq<T>, bool, bool, u64) {
    (s.0, s.1 || s.0.len() > 0, false, s.3)
}

/// The state after `add`ing `calls` at the ticks `nows`, one by one, and
/// whether any of them handed over a batch.
pub open spec fn adds<T>(s: (Seq<T>, bool, bool, u64), max_interval: u64, calls: Seq<T>, nows: Seq<u64>) -> (
    (Seq<T>, bool, bool, u64),
    bool,
)
    decreases calls.len(),
{
    if calls.len() == 0 {
        (s, false)
    } else {
        let (s1, any) = adds(s, max_interval, calls.drop_last(), nows);
        let (s2, b) = add_step(s1, max_interval, calls.last(), nows[calls.len() - 1]);
        (s2, any || b is Some)
    }
}

/// The calls of `calls` queued after `p`, each once, in first-queued order.
pub open spec fn queued<T>(p: Seq<T>, calls: Seq<T>) -> Seq<T>
    decreases calls.len(),
{
    if calls.len() == 0 {
        p
    } else {
        with_call(queued(p, calls.drop_last()), calls.last())
    }
}

impl<T: PartialEq> Coalescer<T> {
    /// The calls waiting for the next batch, in insertion order.
    pub closed spec fn pending(&self) -> Seq<T> {
        self.pending@
    }

    /// Whether the caller has a flush timer armed.
    pub closed spec fn timer_armed(&self) -> bool {
        self.timer_armed
    }

    /// Whether a batch is being consumed.
    pub closed spec fn performing(&self) -> bool {
        self.performing
    }

    /// The tick of the last flush.
    pub closed spec fn last_flush(&self) -> u64 {
        self.last_flush
    }

    /// The debounce interval.
    pub closed spec fn interval(&self) -> u64 {
        self.interval
    }

    /// The longest wait between flushes while calls keep arriving.
    pub closed spec fn max_interval(&self) -> u64 {
        self.max_interval
    }

    /// The queue's state as plain values: the pending calls, whether a timer
    /// is armed, whether a batch is being consumed, and the last flush.
    pub open spec fn state(&self) -> (Seq<T>, bool, bool, u64) {
        (self.pending(), self.timer_armed(), self.performing(), self.last_flush())
    }

    /// The queue's invariant: no call is pending twice, and outside a batch
    /// any pending call has an armed timer (nothing is stranded).
    pub open spec fn wf(&self) -> bool {
        &&& self.pending().no_duplicates()
        &&& !self.performing() && self.pending().len() > 0 ==> self.timer_armed()
    }

    /// An empty queue whose last flush is `now`.
    pub fn new(interval: u64, max_interval: u64, now: u64) -> (r: Self)
        ensures
            r.wf(),
            r.pending() == Seq::<T>::empty(),
            !r.timer_armed(),
            !r.performing(),
            r.last_flush() == now,
            r.interval() == interval,
            r.max_interval() == max_interval,
    {
        Coalescer {
            interval,
            max_interval,
            last_flush: now,
            timer_armed: false,
            performing: false,
            pending: Vec::new(),
        }
    }

    /// The debounce interval the timer is armed for.
    pub fn interval_ticks(&self) -> (r: u64)
        ensures
            r == self.interval(),
    {
        self.interval
    }

    fn holds(&self, call: &T) -> (r: bool)
        requires
            obeys_concrete_eq::<T>(),
        ensures
            r == self.pending@.contains(*call),
    {
        broadcast use vstd::laws_eq::group_laws_eq;

        reveal(obeys_concrete_eq);
        let n = self.pending.len();
        let mut i: usize = 0;
        while i < n
            invariant
                n == self.pending@.len(),
                i <= n,
                obeys_concrete_eq::<T>(),
                forall|j: int| 0 <= j < i ==> self.pending@[j] != *call,
            decreases n - i,
        {
            proof {
                reveal(obeys_concrete_eq);
            }
            if self.pending[i] == *call {
                return true;
            }
            i += 1;
        }
        false
    }

    /// Queue a call at tick `now`. A call already pending is not queued
    /// twice. If the maximum interval has elapsed since the last flush, the
    /// queue flushes now; otherwise the caller (re)arms the timer.
    pub fn add(&mut self, call: T, now: u64) -> (r: Step<T>)
        requires
            obeys_concrete_eq::<T>(),
            old(self).wf(),
        ensures
            final(self).wf(),
            (final(self).state(), batch_of(r)) == add_step(
                old(self).state(),
                old(self).max_interval(),
                call,
                now,
            ),
            final(self).interval() == old(self).interval(),
            final(self).max_interval() == old(self).max_interval(),
            final(self).performing() == (old(self).performing() || (elapsed(
                now,
                old(self).last_flush(),
            ) >= old(self).max_interval() && !old(self).performing())),
            if elapsed(now, old(self).last_flush()) >= old(self).max_interval() {
                &&& final(self).last_flush() == now
                &&& !final(self).timer_armed()
                &&& if old(self).performing() {
                    &&& r is Idle
                    &&& final(self).pending() == with_call(old(self).pending(), call)
                } else {
                    &&& r matches Step::Perform(b) && b@ == with_call(old(self).pending(), call)
                    &&& final(self).pending() == Seq::<T>::empty()
                }
            } else {
                &&& r is ArmTimer
                &&& final(self).timer_armed()
                &&& final(self).last_flush() == old(self).last_flush()
                &&& final(self).pending() == with_call(old(self).pending(), call)
            },
    {
        let held = self.holds(&call);
        if !held {
            self.pending.push(call);
        }
        proof {
            if !old(self).pending@.contains(call) {
                assert forall|i: int, j: int|
                    0 <= i < self.pending@.len() && 0 <= j < self.pending@.len() && i != j
                    implies self.pending@[i] != self.pending@[j] by {
                    if i == self.pending@.len() - 1 {
                        assert(old(self).pending@.contains(self.pending@[j]) || j == i);
                    } else if j == self.pending@.len() - 1 {
                        assert(old(self).pending@.contains(self.pending@[i]));
                    }
                }
            }
            assert(self.pending@ == with_call(old(self).pending@, call));
        }
        let elapsed = if now >= self.last_flush {
            now - self.last_flush
        } else {
            0
        };
        if elapsed >= self.max_interval {
            self.flush(now)
        } else {
            self.timer_armed = true;
            Step::ArmTimer
        }
    }

    /// Flush at tick `now`: cancel the timer and deliver the pending calls as
    /// one batch. Nothing is delivered when nothing is pending, or when a
    /// batch is already being consumed (the calls stay pending and flush
    /// after it).
    pub fn flush(&mut self, now: u64) -> (r: Step<T>)
        requires
            old(self).pending().no_duplicates(),
        ensures
            final(self).wf(),
            (final(self).state(), batch_of(r)) == flush_step(old(self).state(), now),
            final(self).interval() == old(self).interval(),
            final(self).max_interval() == old(self).max_interval(),
            final(self).last_flush() == now,
            !final(self).timer_armed(),
            if old(self).performing() {
                &&& r is Idle
                &&& final(self).performing()
                &&& final(self).pending() == old(self).pending()
            } else if old(self).pending().len() == 0 {
                &&& r is Idle
                &&& !final(self).performing()
                &&& final(self).pending() == old(self).pending()
            } else {
                &&& r matches Step::Perform(b) && b@ == old(self).pending()
                &&& final(self).performing()
                &&& final(self).pending() == Seq::<T>::empty()
            },
    {
        self.timer_armed = false;
        self.last_flush = now;
        if self.performing || self.pending.len() == 0 {
            return Step::Idle;
        }
        let mut batch: Vec<T> = Vec::new();
        std::mem::swap(&mut batch, &mut self.pending);
        self.performing = true;
        Step::Perform(batch)
    }

    /// The consumer has finished a batch. Calls queued while it ran get a
    /// live timer, so they cannot strand.
    pub fn performed(&mut self) -> (r: Step<T>)
        requires
            old(self).wf(),
        ensures
            final(self).wf(),
            final(self).state() == performed_step(old(self).state()),
            !final(self).performing(),
            final(self).pending() == old(self).pending(),
            final(self).last_flush() == old(self).last_flush(),
            final(self).interval() == old(self).interval(),
            final(self).max_interval() == old(self).max_interval(),
            if old(self).pending().len() > 0 && !old(self).timer_armed() {
                r is ArmTimer && final(self).timer_armed()
            } else {
                r is Idle && final(self).timer_armed() == old(self).timer_armed()
            },
    {
        self.performing = false;
        if self.pending.len() > 0 && !self.timer_armed {
            self.timer_armed = true;
            Step::ArmTimer
        } else {
            Step::Idle
        }
    }
}

/// Queueing a call keeps what was pending, in its order, puts the new call
/// last unless it was already pending, and never makes a call pending twice:
/// so the next batch holds every call queued since the last flush, once
/// each, in the order of its first queueing.
pub proof fn law_queueing_dedupes_in_order<T>(p: Seq<T>, x: T)
    requires
        p.no_duplicates(),
    ensures
        with_call(p, x).no_duplicates(),
        with_call(p, x).contains(x),
        with_call(p, x).take(p.len() as int) == p,
        forall|y: T| #[trigger] with_call(p, x).contains(y) <==> (p.contains(y) || y == x),
{
    let q = with_call(p, x);
    assert(q.take(p.len() as int) =~= p);
    if !p.contains(x) {
        assert(q[p.len() as int] == x);
        assert forall|i: int, j: int| 0 <= i < q.len() && 0 <= j < q.len() && i != j implies q[i]
            != q[j] by {
            if i == p.len() {
                assert(p.contains(q[j]));
            } else if j == p.len() {
                assert(p.contains(q[i]));
            }
        }
        assert forall|y: T| #[trigger] q.contains(y) implies (p.contains(y) || y == x) by {
            let k = choose|k: int| 0 <= k < q.len() && q[k] == y;
            if k < p.len() {
                assert(p[k] == y);
            }
        }
        assert forall|y: T| p.contains(y) implies #[trigger] q.contains(y) by {
            let k = choose|k: int| 0 <= k < p.len() && p[k] == y;
            assert(q[k] == y);
        }
    }
}

/// A burst of the same call collapses: queueing a call that is already
/// pending changes nothing.
pub proof fn law_repeated_call_collapses<T>(p: Seq<T>, x: T)
    ensures
        with_call(with_call(p, x), x) == with_call(p, x),
{
    if !p.contains(x) {
        assert(p.push(x)[p.len() as int] == x);
    }
}

proof fn lemma_adds_while_performing<T>(
    s: (Seq<T>, bool, bool, u64),
    max_interval: u64,
    calls: Seq<T>,
    nows: Seq<u64>,
)
    requires
        s.2,
        nows.len() >= calls.len(),
    ensures
        ({
            let (t, any) = adds(s, max_interval, calls, nows);
            &&& !any
            &&& t.2
            &&& t.0 == queued(s.0, calls)
        }),
    decreases calls.len(),
{
    if calls.len() > 0 {
        lemma_adds_while_performing(s, max_interval, calls.drop_last(), nows);
    }
}

/// A flush hands the whole batch over exactly once: flushing a queue with
/// calls `p` pending (outside a batch) delivers `p`; calls `add`ed while the
/// consumer runs deliver nothing, stay pending once each in first-queued
/// order, and when the consumer reports back they have an armed timer, so
/// they cannot strand.
pub proof fn law_flush_delivers_once<T>(
    s: (Seq<T>, bool, bool, u64),
    max_interval: u64,
    flush_at: u64,
    calls: Seq<T>,
    nows: Seq<u64>,
)
    requires
        s.0.len() > 0,
        !s.2,
        nows.len() == calls.len(),
    ensures
        ({
            let (s1, batch) = flush_step(s, flush_at);
            let (s2, any) = adds(s1, max_interval, calls, nows);
            let s3 = performed_step(s2);
            &&& batch == Some(s.0)
            &&& s1.0.len() == 0
            &&& !any
            &&& s3.0 == queued(Seq::<T>::empty(), calls)
            &&& !s3.2
            &&& s3.0.len() > 0 ==> s3.1
        }),
{
    let (s1, batch) = flush_step(s, flush_at);
    lemma_adds_while_performing(s1, max_interval, calls, nows);
}

/// Queueing within the interval never performs: the call joins the pending
/// calls (once, after those already pending), nothing is handed over, and
/// the one flush timer is (re)armed.
pub proof fn law_add_within_interval<T>(
    s: (Seq<T>, bool, bool, u64),
    max_interval: u64,
    call: T,
    now: u64,
)
    requires
        s.0.no_duplicates(),
        elapsed(now, s.3) < max_interval,
    ensures
        ({
            let (t, batch) = add_step(s, max_interval, call, now);
            &&& t.0 == with_call(s.0, call)
            &&& t.0.no_duplicates()
            &&& batch is None
            &&& t.1
            &&& t.2 == s.2
        }),
{
    law_queueing_dedupes_in_order(s.0, call);
}

} // verus!
