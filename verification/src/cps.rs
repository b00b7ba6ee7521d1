use ringbuffer::{AllocRingBuffer, RingBuffer};
use vstd::prelude::*;

use crate::shared_state::SharedState;

verus! {

/// Bounded ring buffer of `ringbuffer`, holding the click counts of the
/// recent measuring intervals.
#[verifier::external_type_specification]
#[verifier::external_body]
#[verifier::reject_recursive_types(T)]
pub struct ExAllocRingBuffer<T>(AllocRingBuffer<T>);

/// The counts a ring buffer holds, oldest first.
pub uninterp spec fn ring_contents(rb: AllocRingBuffer<u64>) -> Seq<u64>;

/// The number of counts a ring buffer holds at most, fixed when it is made.
pub uninterp spec fn ring_capacity(rb: AllocRingBuffer<u64>) -> nat;

/// Most intervals one measurement spans: a second of one-millisecond intervals.
pub const MAX_WINDOW: usize = 1000;

/// `AllocRingBuffer::new`: an empty buffer of the given capacity. The source
/// panics on capacity zero, which `requires` rules out together with sizes
/// beyond what a measurement uses.
#[verifier::external_body]
fn ring_new(capacity: usize) -> (rb: AllocRingBuffer<u64>)
    requires
        0 < capacity <= MAX_WINDOW,
    ensures
        ring_contents(rb) == Seq::<u64>::empty(),
        ring_capacity(rb) == capacity,
{
    AllocRingBuffer::new(capacity)
}

/// `RingBuffer::enqueue` of `AllocRingBuffer`: appends the value; when the
/// buffer was full it first drops the oldest value and hands it back. The
/// capacity stays.
#[verifier::external_body]
fn ring_enqueue(rb: &mut AllocRingBuffer<u64>, value: u64) -> (dropped: Option<u64>)
    ensures
        ring_capacity(*final(rb)) == ring_capacity(*old(rb)),
        ring_contents(*old(rb)).len() == ring_capacity(*old(rb)) ==> {
            &&& ring_contents(*final(rb)) == ring_contents(*old(rb)).drop_first().push(value)
            &&& dropped == Some(ring_contents(*old(rb))[0])
        },
        ring_contents(*old(rb)).len() != ring_capacity(*old(rb)) ==> {
            &&& ring_contents(*final(rb)) == ring_contents(*old(rb)).push(value)
            &&& dropped is None
        },
{
    rb.enqueue(value)
}

/// `RingBuffer::to_vec` of `AllocRingBuffer`: the values, oldest first.
#[verifier::external_body]
fn ring_to_vec(rb: &AllocRingBuffer<u64>) -> (v: Vec<u64>)
    ensures
        v@ == ring_contents(*rb),
{
    rb.to_vec()
}

/// The sum of a sequence of counts.
pub open spec fn sum(s: Seq<u64>) -> int
    decreases s.len(),
{
    if s.len() == 0 {
        0
    } else {
        sum(s.drop_last()) + s.last()
    }
}

/// The last `n` elements of `s`, or all of them when there are fewer.
pub open spec fn last_n(s: Seq<u64>, n: nat) -> Seq<u64> {
    if s.len() <= n {
        s
    } else {
        s.subrange(s.len() - n, s.len() as int)
    }
}

/// How many intervals of `update_delay_ms` one measurement spans: those that
/// fit in one second.
pub open spec fn window_for(update_delay_ms: u64) -> nat {
    (1000u64 / update_delay_ms) as nat
}

/// A prefix sums to no more than the whole.
pub proof fn lemma_sum_prefix(s: Seq<u64>, i: int)
    requires
        0 <= i <= s.len(),
    ensures
        sum(s.take(i)) <= sum(s),
    decreases s.len() - i,
{
    if i < s.len() {
        lemma_sum_prefix(s, i + 1);
        assert(s.take(i + 1).drop_last() =~= s.take(i));
    } else {
        assert(s.take(i) =~= s);
    }
}

/// The sum of the counts, or `None` when it does not fit in a `u64`.
pub fn checked_sum(v: &Vec<u64>) -> (r: Option<u64>)
    ensures
        r == (if sum(v@) <= u64::MAX { Some(sum(v@) as u64) } else { None::<u64> }),
{
    let n = v.len();
    let mut acc: u64 = 0;
    let mut i: usize = 0;
    while i < n
        invariant
            n == v.len(),
            i <= n,
            acc == sum(v@.take(i as int)),
        decreases n - i,
    {
        assert(v@.take(i + 1).drop_last() =~= v@.take(i as int));
        match acc.checked_add(v[i]) {
            Some(a) => acc = a,
            None => {
                proof {
                    lemma_sum_prefix(v@, i + 1);
                }
                return None;
            },
        }
        i = i + 1;
    }
    assert(v@.take(n as int) =~= v@);
    Some(acc)
}

/// Measures clicks per second over a sliding window of intervals.
pub struct CpsMeter {
    buckets: AllocRingBuffer<u64>,
    window: usize,
    recorded: Ghost<Seq<u64>>,
}

impl CpsMeter {
    #[verifier::type_invariant]
    closed spec fn well_formed(self) -> bool {
        &&& 0 < self.window <= MAX_WINDOW
        &&& ring_capacity(self.buckets) == self.window
        &&& ring_contents(self.buckets) == last_n(self.recorded@, self.window as nat)
    }

    /// Every count recorded so far, oldest first.
    pub closed spec fn history(self) -> Seq<u64> {
        self.recorded@
    }

    /// How many of the latest counts one measurement sums.
    pub closed spec fn window(self) -> nat {
        self.window as nat
    }

    /// A meter for intervals of `update_delay_ms` milliseconds, whose window
    /// is the number of intervals in one second, with nothing recorded.
    pub fn new(update_delay_ms: u64) -> (m: Self)
        requires
            1 <= update_delay_ms <= 1000,
        ensures
            m.window() == window_for(update_delay_ms),
            m.history() == Seq::<u64>::empty(),
    {
        let q: u64 = 1000 / update_delay_ms;
        assert(1 <= q <= 1000) by (nonlinear_arith)
            requires
                1 <= update_delay_ms <= 1000,
                q == 1000u64 / update_delay_ms,
        ;
        let window = q as usize;
        let buckets = ring_new(window);
        CpsMeter { buckets, window, recorded: Ghost(Seq::empty()) }
    }

    /// Records the clicks of one more interval and returns the clicks of the
    /// last `window` intervals together, or `None` when that sum does not fit
    /// in a `u64`.
    pub fn record(&mut self, clicks: u64) -> (cps: Option<u64>)
        ensures
            final(self).window() == old(self).window(),
            final(self).history() == old(self).history().push(clicks),
            ({
                let s = sum(last_n(final(self).history(), final(self).window()));
                cps == if s <= u64::MAX { Some(s as u64) } else { None::<u64> }
            }),
    {
        proof {
            use_type_invariant(&*self);
        }
        let ghost old_hist = self.recorded@;
        let ghost w = self.window as nat;
        let ghost new_hist = old_hist.push(clicks);
        let mut taken = CpsMeter::new(1000);
        std::mem::swap(&mut taken, self);
        proof {
            use_type_invariant(&taken);
        }
        let CpsMeter { mut buckets, window, recorded } = taken;
        let _ = ring_enqueue(&mut buckets, clicks);
        proof {
            if old_hist.len() < w {
                assert(last_n(new_hist, w) =~= new_hist);
            } else {
                assert(last_n(new_hist, w) =~= last_n(old_hist, w).drop_first().push(clicks));
            }
        }
        let counts = ring_to_vec(&buckets);
        let cps = checked_sum(&counts);
        *self = CpsMeter { buckets, window, recorded: Ghost(new_hist) };
        cps
    }
}

/// One measurement: takes the clicks counted since the last one, records
/// them, and stores the clicks of the last second as the clicks per second.
/// Returns that value, or `None` (leaving the stored value) when it does not
/// fit in a `u64`.
pub fn measure(state: &mut SharedState, meter: &mut CpsMeter) -> (cps: Option<u64>)
    ensures
        final(meter).window() == old(meter).window(),
        final(meter).history() == old(meter).history().push(old(state).click_counter),
        ({
            let s = sum(last_n(final(meter).history(), final(meter).window()));
            cps == if s <= u64::MAX { Some(s as u64) } else { None::<u64> }
        }),
        final(state).click_counter == 0,
        final(state).cps == match cps {
            Some(c) => c,
            None => old(state).cps,
        },
        final(state).left_enabled == old(state).left_enabled,
        final(state).right_enabled == old(state).right_enabled,
        final(state).fast_enabled == old(state).fast_enabled,
        final(state).spammers@ == old(state).spammers@,
{
    let clicks = state.take_clicks();
    let cps = meter.record(clicks);
    match cps {
        Some(c) => state.cps = c,
        None => {},
    }
    cps
}

} // verus!
