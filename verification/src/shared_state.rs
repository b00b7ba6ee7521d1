use vstd::prelude::*;

use crate::cli::Cli;
use crate::registry::SpammerMap;
use crate::spammer::Spammer;

verus! {

/// Error given when no spammer has the given name.
pub const SPAMMER_NOT_FOUND: &'static str = "Spammer not found";

/// One of the two clicking buttons, with the spammer of the same name.
#[derive(Clone, Copy, Debug, PartialEq, Eq, Structural)]
pub enum Side {
    /// The left button; its spammer is named "left".
    Left,
    /// The right button; its spammer is named "right".
    Right,
}

/// The name of a side's spammer.
pub open spec fn side_key(side: Side) -> Seq<char> {
    match side {
        Side::Left => seq!['l', 'e', 'f', 't'],
        Side::Right => seq!['r', 'i', 'g', 'h', 't'],
    }
}

/// The name of a side's spammer.
pub fn key_of(side: Side) -> (k: &'static str)
    ensures
        k@ == side_key(side),
{
    match side {
        Side::Left => {
            let k = "left";
            proof {
                reveal_strlit("left");
            }
            assert(k@ =~= side_key(side));
            k
        },
        Side::Right => {
            let k = "right";
            proof {
                reveal_strlit("right");
            }
            assert(k@ =~= side_key(side));
            k
        },
    }
}

/// The click counter after one more click: one more, wrapping around as an
/// atomic addition does.
pub open spec fn after_click(counter: u64) -> u64 {
    ((counter + 1) % 0x1_0000_0000_0000_0000) as u64
}

/// What a shared state holds, with the spammers as a map by name.
#[verifier::ext_equal]
pub struct StateModel {
    pub left_enabled: bool,
    pub right_enabled: bool,
    pub fast_enabled: bool,
    pub click_counter: u64,
    pub cps: u64,
    pub spammers: Map<Seq<char>, Spammer>,
}

impl StateModel {
    /// Whether clicking of the side is switched on.
    pub open spec fn side_enabled(self, side: Side) -> bool {
        match side {
            Side::Left => self.left_enabled,
            Side::Right => self.right_enabled,
        }
    }

    /// The state with clicking of the side switched to `on`.
    pub open spec fn with_side(self, side: Side, on: bool) -> StateModel {
        match side {
            Side::Left => StateModel { left_enabled: on, ..self },
            Side::Right => StateModel { right_enabled: on, ..self },
        }
    }

    /// The state with one more click counted, wrapping around.
    pub open spec fn counted(self) -> StateModel {
        StateModel { click_counter: after_click(self.click_counter), ..self }
    }

    /// The spammer of the side.
    pub open spec fn spammer(self, side: Side) -> Spammer {
        self.spammers[side_key(side)]
    }

    /// The state with the side's spammer replaced by `s`.
    pub open spec fn with_spammer(self, side: Side, s: Spammer) -> StateModel {
        StateModel { spammers: self.spammers.insert(side_key(side), s), ..self }
    }

    /// Both spammers are there.
    pub open spec fn has_both(self) -> bool {
        self.spammers.contains_key(side_key(Side::Left)) && self.spammers.contains_key(
            side_key(Side::Right),
        )
    }
}

/// What the event handling, the workers and the status line share.
pub struct SharedState {
    /// Whether left clicking is switched on.
    pub left_enabled: bool,
    /// Whether right clicking is switched on.
    pub right_enabled: bool,
    /// Whether left clicking uses the fast delay.
    pub fast_enabled: bool,
    /// Clicks counted since the last measurement.
    pub click_counter: u64,
    /// The last measured clicks per second.
    pub cps: u64,
    /// The spammers by name.
    pub spammers: SpammerMap,
}

impl View for SharedState {
    type V = StateModel;

    open spec fn view(&self) -> StateModel {
        StateModel {
            left_enabled: self.left_enabled,
            right_enabled: self.right_enabled,
            fast_enabled: self.fast_enabled,
            click_counter: self.click_counter,
            cps: self.cps,
            spammers: self.spammers@,
        }
    }
}

/// A fresh state: the switches as the command line sets them, no clicks
/// counted or measured, and no spammers.
pub fn init(cli: &Cli) -> (s: SharedState)
    ensures
        s.left_enabled == cli.enable_left,
        s.right_enabled == cli.enable_right,
        s.fast_enabled == cli.enable_fast,
        s.click_counter == 0,
        s.cps == 0,
        s.spammers@ == Map::<Seq<char>, Spammer>::empty(),
{
    SharedState {
        left_enabled: cli.enable_left,
        right_enabled: cli.enable_right,
        fast_enabled: cli.enable_fast,
        click_counter: 0,
        cps: 0,
        spammers: SpammerMap::new(),
    }
}

/// The spammers with the named one, if there is one, switched to its opposite.
pub open spec fn toggled(m: Map<Seq<char>, Spammer>, key: Seq<char>) -> Map<Seq<char>, Spammer> {
    if m.contains_key(key) {
        m.insert(key, m[key].with_enabled(!m[key].enabled))
    } else {
        m
    }
}

/// The spammers with the named one, if there is one, switched to `on`.
pub open spec fn switched(m: Map<Seq<char>, Spammer>, key: Seq<char>, on: bool) -> Map<
    Seq<char>,
    Spammer,
> {
    if m.contains_key(key) {
        m.insert(key, m[key].with_enabled(on))
    } else {
        m
    }
}

/// How many workers starting a spammer starts: none when it already runs.
pub open spec fn workers_to_start(s: Spammer) -> usize {
    if s.enabled {
        0
    } else {
        s.quantity
    }
}

impl SharedState {
    /// The switches and counters of the two states agree.
    pub open spec fn same_switches(self, other: SharedState) -> bool {
        &&& self.left_enabled == other.left_enabled
        &&& self.right_enabled == other.right_enabled
        &&& self.fast_enabled == other.fast_enabled
        &&& self.click_counter == other.click_counter
        &&& self.cps == other.cps
    }

    /// Toggles the named spammer and returns its new state, or `None` when
    /// there is no spammer of that name. When it returns `Some(true)` the
    /// caller starts the spammer's `quantity` workers.
    pub fn toggle_spammer(&mut self, key: &str) -> (r: Option<bool>)
        ensures
            final(self).same_switches(*old(self)),
            final(self).spammers@ == toggled(old(self).spammers@, key@),
            r == (if old(self).spammers@.contains_key(key@) {
                Some(!old(self).spammers@[key@].enabled)
            } else {
                None::<bool>
            }),
    {
        match self.spammers.get(key) {
            Some(s) => {
                let mut s = s;
                if s.is_enabled() {
                    s.disable();
                } else {
                    let _ = s.enable();
                }
                let now = s.is_enabled();
                self.spammers.insert(key, s);
                Some(now)
            },
            None => None,
        }
    }

    /// Starts the named spammer. Returns how many workers the caller has to
    /// start, or an error when there is no spammer of that name.
    pub fn enable_spammer(&mut self, key: &str) -> (r: Result<usize, &'static str>)
        ensures
            final(self).same_switches(*old(self)),
            final(self).spammers@ == switched(old(self).spammers@, key@, true),
            r == (if old(self).spammers@.contains_key(key@) {
                Ok::<usize, &str>(workers_to_start(old(self).spammers@[key@]))
            } else {
                Err::<usize, &str>(SPAMMER_NOT_FOUND)
            }),
    {
        match self.spammers.get(key) {
            Some(s) => {
                let mut s = s;
                let started = s.enable();
                self.spammers.insert(key, s);
                Ok(started)
            },
            None => Err(SPAMMER_NOT_FOUND),
        }
    }

    /// Stops the named spammer, or returns an error when there is no spammer
    /// of that name.
    pub fn disable_spammer(&mut self, key: &str) -> (r: Result<(), &'static str>)
        ensures
            final(self).same_switches(*old(self)),
            final(self).spammers@ == switched(old(self).spammers@, key@, false),
            r == (if old(self).spammers@.contains_key(key@) {
                Ok::<(), &str>(())
            } else {
                Err::<(), &str>(SPAMMER_NOT_FOUND)
            }),
    {
        match self.spammers.get(key) {
            Some(s) => {
                let mut s = s;
                s.disable();
                self.spammers.insert(key, s);
                Ok(())
            },
            None => Err(SPAMMER_NOT_FOUND),
        }
    }

    /// Sets the click delay of the named spammer, or returns an error when
    /// there is no spammer of that name.
    pub fn set_spammer_delay(&mut self, key: &str, delay_ns: u64) -> (r: Result<(), &'static str>)
        ensures
            final(self).same_switches(*old(self)),
            match old(self).spammers@.get(key@) {
                Some(s) => {
                    &&& r == Ok::<(), &str>(())
                    &&& final(self).spammers@ == old(self).spammers@.insert(
                        key@,
                        Spammer { click_delay_ns: delay_ns, ..s },
                    )
                },
                None => r == Err::<(), &str>(SPAMMER_NOT_FOUND) && final(self).spammers@
                    == old(self).spammers@,
            },
    {
        match self.spammers.get(key) {
            Some(s) => {
                let mut s = s;
                s.set_click_delay_ns(delay_ns);
                self.spammers.insert(key, s);
                Ok(())
            },
            None => Err(SPAMMER_NOT_FOUND),
        }
    }

    /// Names `spammer` by `key`, replacing any spammer of that name.
    pub fn add_spammer(&mut self, key: &str, spammer: Spammer)
        ensures
            final(self).same_switches(*old(self)),
            final(self).spammers@ == old(self).spammers@.insert(key@, spammer),
    {
        self.spammers.insert(key, spammer);
    }

    /// The spammer of that name, if there is one.
    pub fn get_spammer(&self, key: &str) -> (r: Option<Spammer>)
        ensures
            r == self.spammers@.get(key@),
    {
        self.spammers.get(key)
    }

    /// Whether the named spammer runs, or `None` when there is no spammer of
    /// that name.
    pub fn is_enabled_spammer(&self, spammer_key: &str) -> (r: Option<bool>)
        ensures
            r == match self.spammers@.get(spammer_key@) {
                Some(s) => Some(s.enabled),
                None => None::<bool>,
            },
    {
        match self.spammers.get(spammer_key) {
            Some(s) => Some(s.is_enabled()),
            None => None,
        }
    }

    /// Counts one click; the counter wraps around as an atomic addition does.
    pub fn count_click(&mut self)
        ensures
            final(self).click_counter == after_click(old(self).click_counter),
            final(self).left_enabled == old(self).left_enabled,
            final(self).right_enabled == old(self).right_enabled,
            final(self).fast_enabled == old(self).fast_enabled,
            final(self).cps == old(self).cps,
            final(self).spammers@ == old(self).spammers@,
    {
        self.click_counter = self.click_counter.wrapping_add(1);
    }

    /// Returns the clicks counted since the last call and resets the counter.
    pub fn take_clicks(&mut self) -> (clicks: u64)
        ensures
            clicks == old(self).click_counter,
            final(self).click_counter == 0,
            final(self).left_enabled == old(self).left_enabled,
            final(self).right_enabled == old(self).right_enabled,
            final(self).fast_enabled == old(self).fast_enabled,
            final(self).cps == old(self).cps,
            final(self).spammers@ == old(self).spammers@,
    {
        let clicks = self.click_counter;
        self.click_counter = 0;
        clicks
    }
}

} // verus!
