//! Verified decision logic of a command-line autoclicker for Linux input
//! devices: when to start and stop the clicking workers, how long a worker
//! waits between clicks, how scrolling rescales the click delay, and how the
//! clicks per second shown on the status line are measured and rendered.
//!
//! Reading the mouse, writing the virtual device, sleeping and threads are
//! left to the program that drives this library.

pub mod cli;
pub mod cps;
pub mod event_loop;
pub mod handle_click;
pub mod interface;
pub mod laws;
pub mod random;
pub mod registry;
pub mod shared_state;
pub mod spammer;
pub mod startup;
pub mod worker;

pub use cli::{ClickMode, Cli, Mode};
pub use cps::{checked_sum, measure, CpsMeter, MAX_WINDOW};
pub use event_loop::{
    finish_scroll, Action, EventLoop, CODE_EXTRA, CODE_LEFT, CODE_MIDDLE, CODE_RIGHT, CODE_SIDE,
    EV_KEY, EV_REL, REL_WHEEL, REL_WHEEL_HI_RES,
};
pub use handle_click::{handle_click, set_side_enabled, side_enabled, InputEvent};
pub use interface::{push_decimal, render_status};
pub use registry::SpammerMap;
pub use shared_state::{init, key_of, SharedState, Side, SPAMMER_NOT_FOUND};
pub use spammer::{delay_bounds, Spammer, BTN_LEFT, BTN_RIGHT, PPM};
pub use startup::{enable_flagged, setup, spammer_for, startup};
pub use worker::{finish_click, next_click, worker_for, Click, Worker};
