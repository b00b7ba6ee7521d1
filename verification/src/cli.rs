use vstd::prelude::*;

verus! {

/// In what format the delays on the command line are given.
#[derive(Clone, Copy, Debug, PartialEq, Eq, Structural)]
pub enum ClickMode {
    /// Delay between clicks.
    Delay,
    /// Target clicks per second.
    Cps,
}

/// Program operation mode.
#[derive(Clone, Copy, Debug, PartialEq, Eq, Structural)]
pub enum Mode {
    /// Clicks while the button is held down.
    Hold,
    /// The side buttons toggle clicking on and off, nothing has to be held.
    Toggle,
    /// Hold and toggle: a press toggles clicking, a long press clicks while held.
    Both,
    /// Spams the enabled buttons from the start until the program is killed.
    Always,
}

/// The settings the decision logic reads, with every delay in nanoseconds.
#[derive(Clone, Copy, Debug)]
pub struct Cli {
    /// Delay between left clicks.
    pub left_click_delay_ns: u64,
    /// Delay between right clicks.
    pub right_click_delay_ns: u64,
    /// Delay between left clicks in fast mode.
    pub fast_click_delay_ns: u64,
    /// Program operation mode.
    pub mode: Mode,
    /// In toggle mode a click stops the autoclicker.
    pub disable_on_click: bool,
    /// Start with left clicking enabled.
    pub enable_left: bool,
    /// Start with right clicking enabled.
    pub enable_right: bool,
    /// Start with fast mode enabled.
    pub enable_fast: bool,
    /// Delay before a left clicking worker starts.
    pub start_delay_left_ns: u64,
    /// Delay before a right clicking worker starts.
    pub start_delay_right_ns: u64,
    /// Whether the delay between clicks is randomized.
    pub randomize: bool,
    /// How far a randomized delay may differ from the base delay, in parts per million.
    pub deviation_ppm: u32,
    /// Whether scrolling changes the delay while clicking.
    pub scroll_changes_cps: bool,
    /// Smallest delay that scrolling may set, unless fast mode clicks the left button.
    pub minimum_delay_ns: u64,
    /// Interval of the clicks-per-second measurement, in milliseconds.
    pub update_delay_ms: u64,
    /// How many workers click for one button.
    pub spammers: u8,
}

} // verus!
