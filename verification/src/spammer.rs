use rand::rngs::ThreadRng;
use vstd::prelude::*;

use crate::random::random_in_range;

verus! {

/// Parts per million that make up the whole base delay.
pub const PPM: u32 = 1_000_000;

/// The left mouse button as (event type, code): a key event of code 272.
pub const BTN_LEFT: (u64, u64) = (1, 272);

/// The right mouse button as (event type, code): a key event of code 273.
pub const BTN_RIGHT: (u64, u64) = (1, 273);

/// A clicking job for one mouse button: how its workers click and whether they run.
#[derive(Clone, Copy, Debug)]
pub struct Spammer {
    /// Delay between a press and the next one, in nanoseconds.
    pub click_delay_ns: u64,
    /// The button that is clicked, as (event type, code).
    pub key: (u64, u64),
    /// Whether the delay is drawn at random around `click_delay_ns`.
    pub randomize: bool,
    /// How far a random delay may differ from the base, in parts per million.
    pub deviation_ppm: u32,
    /// Delay before a worker clicks for the first time, in nanoseconds.
    pub start_delay_ns: u64,
    /// Whether every click is added to the shared click counter.
    pub click_counter: bool,
    /// How many workers click at once.
    pub quantity: usize,
    /// Whether the workers are meant to be clicking; `enable` and `disable` set it.
    pub enabled: bool,
}

/// The part of `nanos` that a deviation of `ppm` parts per million (at most the
/// whole) allows a random delay to differ by, rounded down.
pub open spec fn spread(nanos: u64, ppm: u32) -> int {
    let p = if ppm > PPM { PPM as int } else { ppm as int };
    (nanos as int * p) / (PPM as int)
}

/// The smallest delay a randomized worker may wait.
pub open spec fn lowest_delay(nanos: u64, ppm: u32) -> int {
    nanos - spread(nanos, ppm)
}

/// The largest delay a randomized worker may wait, capped at `u64::MAX`.
pub open spec fn highest_delay(nanos: u64, ppm: u32) -> int {
    if nanos + spread(nanos, ppm) > u64::MAX {
        u64::MAX as int
    } else {
        nanos + spread(nanos, ppm)
    }
}

/// The range `lowest ..= highest` that a randomized delay is drawn from.
pub fn delay_bounds(nanos: u64, deviation_ppm: u32) -> (r: (u64, u64))
    ensures
        r.0 == lowest_delay(nanos, deviation_ppm),
        r.1 == highest_delay(nanos, deviation_ppm),
        r.0 <= nanos <= r.1,
{
    let p: u32 = if deviation_ppm > PPM { PPM } else { deviation_ppm };
    assert((nanos as int) * (p as int) <= (u64::MAX as int) * (PPM as int)) by (nonlinear_arith)
        requires p <= PPM;
    let product: u128 = (nanos as u128) * (p as u128);
    let s: u128 = product / (PPM as u128);
    assert(s <= nanos) by (nonlinear_arith)
        requires s == (nanos * p) / (PPM as int), p <= PPM;
    let s64: u64 = s as u64;
    let low: u64 = nanos - s64;
    let high: u64 = if nanos as u128 + s > u64::MAX as u128 { u64::MAX } else { nanos + s64 };
    (low, high)
}

impl Spammer {
    /// Whether the workers of this spammer are meant to be clicking.
    pub open spec fn spec_is_enabled(&self) -> bool {
        self.enabled
    }

    /// This spammer with its running state set to `on` and nothing else changed.
    pub open spec fn with_enabled(self, on: bool) -> Spammer {
        Spammer { enabled: on, ..self }
    }

    /// A stopped spammer clicking the left button every 50 ms, after a start
    /// delay of 100 ms, with one worker, no randomization, a deviation of 30%
    /// should randomization be switched on, and no click counting.
    pub fn new() -> (s: Self)
        ensures
            s.click_delay_ns == 50_000_000,
            s.key == BTN_LEFT,
            !s.randomize,
            s.deviation_ppm == 300_000,
            s.start_delay_ns == 100_000_000,
            !s.click_counter,
            s.quantity == 1,
            !s.spec_is_enabled(),
    {
        Spammer {
            click_delay_ns: 50_000_000,
            key: BTN_LEFT,
            randomize: false,
            deviation_ppm: 300_000,
            start_delay_ns: 100_000_000,
            click_counter: false,
            quantity: 1,
            enabled: false,
        }
    }

    /// Counts every click of this spammer in the shared click counter.
    pub fn click_counter(self) -> (s: Self)
        ensures
            s == (Spammer { click_counter: true, ..self }),
    {
        Spammer { click_counter: true, ..self }
    }

    /// Clicks `key` in place of the current button.
    pub fn key(self, key: (u64, u64)) -> (s: Self)
        ensures
            s == (Spammer { key: key, ..self }),
    {
        Spammer { key: key, ..self }
    }

    /// Sets the delay between clicks, in nanoseconds.
    pub fn click_delay(self, delay_ns: u64) -> (s: Self)
        ensures
            s == (Spammer { click_delay_ns: delay_ns, ..self }),
    {
        let mut s = self;
        s.set_click_delay_ns(delay_ns);
        s
    }

    /// Sets the delay before a worker starts clicking, in nanoseconds.
    pub fn start_delay(self, start_delay_ns: u64) -> (s: Self)
        ensures
            s == (Spammer { start_delay_ns: start_delay_ns, ..self }),
    {
        Spammer { start_delay_ns: start_delay_ns, ..self }
    }

    /// Switches randomization of the delay on or off.
    pub fn randomize(self, randomize: bool) -> (s: Self)
        ensures
            s == (Spammer { randomize: randomize, ..self }),
    {
        Spammer { randomize: randomize, ..self }
    }

    /// Sets the deviation in parts per million, clamped to the whole base delay.
    pub fn deviation(self, deviation_ppm: u32) -> (s: Self)
        ensures
            s == (Spammer {
                deviation_ppm: if deviation_ppm > PPM { PPM } else { deviation_ppm },
                ..self
            }),
    {
        let d: u32 = if deviation_ppm > PPM { PPM } else { deviation_ppm };
        Spammer { deviation_ppm: d, ..self }
    }

    /// Sets how many workers click at once.
    pub fn quantity(self, quantity: usize) -> (s: Self)
        ensures
            s == (Spammer { quantity: quantity, ..self }),
    {
        Spammer { quantity: quantity, ..self }
    }

    /// Sets the delay between clicks, in nanoseconds.
    pub fn set_click_delay_ns(&mut self, delay: u64)
        ensures
            *final(self) == (Spammer { click_delay_ns: delay, ..*old(self) }),
    {
        self.click_delay_ns = delay;
    }

    /// Whether the workers of this spammer are meant to be clicking.
    #[verifier::when_used_as_spec(spec_is_enabled)]
    pub fn is_enabled(&self) -> (b: bool)
        ensures
            b == self.spec_is_enabled(),
    {
        self.enabled
    }

    /// Starts the spammer. Returns how many workers the caller has to start:
    /// `quantity` when it was stopped, none when it already ran.
    pub fn enable(&mut self) -> (started: usize)
        ensures
            *final(self) == old(self).with_enabled(true),
            started == if old(self).spec_is_enabled() { 0 } else { old(self).quantity },
    {
        if self.enabled {
            return 0;
        }
        self.enabled = true;
        self.quantity
    }

    /// Stops the spammer: its workers end after their current click.
    pub fn disable(&mut self)
        ensures
            *final(self) == old(self).with_enabled(false),
    {
        self.enabled = false;
    }
}

/// How long a worker waits after a press before it releases the button and
/// presses again: `nanos`, or with randomization a delay drawn from
/// `delay_bounds(nanos, deviation_ppm)`.
pub fn draw_delay(nanos: u64, randomize: bool, deviation_ppm: u32, rng: &mut ThreadRng) -> (d: u64)
    ensures
        !randomize ==> d == nanos,
        randomize ==> lowest_delay(nanos, deviation_ppm) <= d <= highest_delay(nanos, deviation_ppm),
{
    if randomize {
        let (low, high) = delay_bounds(nanos, deviation_ppm);
        random_in_range(rng, low, high)
    } else {
        nanos
    }
}

impl Spammer {
    /// How long a worker of this spammer waits after a press, as `draw_delay`
    /// says for its delay, randomization and deviation.
    pub fn next_delay(&self, rng: &mut ThreadRng) -> (d: u64)
        ensures
            !self.randomize ==> d == self.click_delay_ns,
            self.randomize ==> lowest_delay(self.click_delay_ns, self.deviation_ppm) <= d
                <= highest_delay(self.click_delay_ns, self.deviation_ppm),
    {
        draw_delay(self.click_delay_ns, self.randomize, self.deviation_ppm, rng)
    }
}

} // verus!
