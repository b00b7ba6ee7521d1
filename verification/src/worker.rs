use rand::rngs::ThreadRng;
use vstd::prelude::*;

use crate::shared_state::{after_click, key_of, side_key, SharedState, Side};
use crate::spammer::{draw_delay, highest_delay, lowest_delay, Spammer};

verus! {

/// What a clicking worker takes from its spammer when it starts and keeps for
/// its whole run: the button, the start delay, whether and how far it
/// randomizes, and whether it counts its clicks. Only the delay and whether
/// the spammer runs are read anew for every click.
#[derive(Clone, Copy, Debug, PartialEq, Eq)]
pub struct Worker {
    /// The side whose spammer the worker belongs to.
    pub side: Side,
    /// The button, as (event type, code).
    pub key: (u64, u64),
    /// How long the worker waits before its first click, in nanoseconds.
    pub start_delay_ns: u64,
    /// Whether the delay is drawn at random around the spammer's delay.
    pub randomize: bool,
    /// How far a random delay may differ, in parts per million.
    pub deviation_ppm: u32,
    /// Whether the clicks go into the shared click counter.
    pub counted: bool,
}

/// The worker that a side's spammer `s` starts.
pub open spec fn worker_of(side: Side, s: Spammer) -> Worker {
    Worker {
        side: side,
        key: s.key,
        start_delay_ns: s.start_delay_ns,
        randomize: s.randomize,
        deviation_ppm: s.deviation_ppm,
        counted: s.click_counter,
    }
}

/// Takes what a worker of the side's spammer keeps for its whole run.
pub fn worker_for(side: Side, s: &Spammer) -> (w: Worker)
    ensures
        w == worker_of(side, *s),
        w.side == side,
        w.key == s.key,
        w.start_delay_ns == s.start_delay_ns,
        w.randomize == s.randomize,
        w.deviation_ppm == s.deviation_ppm,
        w.counted == s.click_counter,
{
    Worker {
        side: side,
        key: s.key,
        start_delay_ns: s.start_delay_ns,
        randomize: s.randomize,
        deviation_ppm: s.deviation_ppm,
        counted: s.click_counter,
    }
}

/// One click a worker is to make: the button, how long to hold it before the
/// next click, and whether to count it.
#[derive(Clone, Copy, Debug, PartialEq, Eq)]
pub struct Click {
    /// The button, as (event type, code).
    pub key: (u64, u64),
    /// How long to wait after the press, in nanoseconds.
    pub delay_ns: u64,
    /// Whether the click goes into the shared click counter.
    pub counted: bool,
}

/// The next click of a worker, or `None` when the worker is to end because
/// its side's spammer is stopped or gone. The button and the counting are the
/// worker's own; the delay is the spammer's current delay, drawn around it
/// with the worker's deviation when the worker randomizes.
pub fn next_click(state: &SharedState, worker: &Worker, rng: &mut ThreadRng) -> (r: Option<Click>)
    ensures
        match state@.spammers.get(side_key(worker.side)) {
            Some(s) => if s.enabled {
                &&& r is Some
                &&& r->0.key == worker.key
                &&& r->0.counted == worker.counted
                &&& !worker.randomize ==> r->0.delay_ns == s.click_delay_ns
                &&& worker.randomize ==> lowest_delay(s.click_delay_ns, worker.deviation_ppm)
                    <= r->0.delay_ns <= highest_delay(s.click_delay_ns, worker.deviation_ppm)
            } else {
                r is None
            },
            None => r is None,
        },
{
    match state.get_spammer(key_of(worker.side)) {
        Some(s) => {
            if s.is_enabled() {
                let d = draw_delay(s.click_delay_ns, worker.randomize, worker.deviation_ppm, rng);
                Some(Click { key: worker.key, delay_ns: d, counted: worker.counted })
            } else {
                None
            }
        },
        None => None,
    }
}

/// The click counter after a made click: one more when the click is
/// counted, unchanged otherwise.
pub open spec fn counter_after(counter: u64, counted: bool) -> u64 {
    if counted {
        after_click(counter)
    } else {
        counter
    }
}

/// Counts a made click when it is to be counted.
pub fn finish_click(state: &mut SharedState, click: &Click)
    ensures
        final(state).click_counter == counter_after(old(state).click_counter, click.counted),
        final(state).left_enabled == old(state).left_enabled,
        final(state).right_enabled == old(state).right_enabled,
        final(state).fast_enabled == old(state).fast_enabled,
        final(state).cps == old(state).cps,
        final(state).spammers@ == old(state).spammers@,
{
    if click.counted {
        state.count_click();
    }
}

} // verus!
