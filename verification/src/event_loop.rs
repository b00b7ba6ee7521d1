use vstd::prelude::*;

use crate::cli::{Cli, Mode};
use crate::handle_click::{handle_click, set_side_enabled, side_enabled, click_step, InputEvent};
use crate::shared_state::{key_of, side_key, SharedState, Side, StateModel};
use crate::spammer::Spammer;
use crate::worker::{worker_for, worker_of, Worker};

verus! {

/// Event type of buttons.
pub const EV_KEY: u16 = 1;

/// Event type of relative axes.
pub const EV_REL: u16 = 2;

/// Code of the left button.
pub const CODE_LEFT: u16 = 272;

/// Code of the right button.
pub const CODE_RIGHT: u16 = 273;

/// Code of the middle button.
pub const CODE_MIDDLE: u16 = 274;

/// Code of the side button.
pub const CODE_SIDE: u16 = 275;

/// Code of the extra button.
pub const CODE_EXTRA: u16 = 276;

/// Code of the scroll wheel.
pub const REL_WHEEL: u16 = 8;

/// Code of the high resolution scroll wheel.
pub const REL_WHEEL_HI_RES: u16 = 11;

/// What the caller has to do after an event.
#[derive(Clone, Copy, Debug, PartialEq, Eq)]
pub enum Action {
    /// Send the event on to the virtual device unchanged.
    Forward(InputEvent),
    /// Start `count` workers, each running as `worker` says.
    StartWorkers { count: usize, worker: Worker },
    /// Scale `delay_ns`, the side's click delay, by the scroll factor, divided
    /// by it when `divide` holds and multiplied otherwise, truncate it to whole
    /// nanoseconds and hand it with `value` to `finish_scroll`.
    Rescale { side: Side, delay_ns: u64, divide: bool, value: i32 },
}

/// The times of the last press of each side, as the event loop keeps them.
#[derive(Clone, Copy, Debug)]
pub struct EventLoop {
    /// Time of the last left press that toggled in both mode, in nanoseconds.
    pub last_left_click_ns: u64,
    /// Time of the last right press that toggled in both mode, in nanoseconds.
    pub last_right_click_ns: u64,
}

/// The delay of left clicking: the fast one while fast mode is on.
pub open spec fn left_delay(m: StateModel, cli: Cli) -> u64 {
    if m.fast_enabled {
        cli.fast_click_delay_ns
    } else {
        cli.left_click_delay_ns
    }
}

/// The delay a side's spammer is given when it is switched on in toggle mode.
pub open spec fn switch_delay(m: StateModel, cli: Cli, side: Side) -> u64 {
    match side {
        Side::Left => left_delay(m, cli),
        Side::Right => cli.right_click_delay_ns,
    }
}

/// A press of the middle button while left clicking is on flips fast mode and
/// gives the left spammer the delay that now applies.
pub open spec fn middle_step(m: StateModel, cli: Cli, value: i32) -> StateModel {
    if value == 1 && m.left_enabled {
        let f = StateModel { fast_enabled: !m.fast_enabled, ..m };
        f.with_spammer(Side::Left, Spammer { click_delay_ns: left_delay(f, cli), ..m.spammer(Side::Left) })
    } else {
        m
    }
}

/// A press of the side (left) or extra (right) button flips clicking of that
/// side. Switching it off stops the spammer; switching it on in toggle mode
/// gives the spammer its delay and starts it. Also how many workers start.
pub open spec fn switch_step(m: StateModel, cli: Cli, side: Side, value: i32) -> (StateModel, nat) {
    let s = m.spammer(side);
    if value == 1 {
        let on = !m.side_enabled(side);
        let f = m.with_side(side, on);
        if on {
            if cli.mode == Mode::Toggle {
                (
                    f.with_spammer(
                        side,
                        Spammer { click_delay_ns: switch_delay(f, cli, side), ..s }.with_enabled(true),
                    ),
                    if s.enabled { 0 } else { s.quantity as nat },
                )
            } else {
                (f, 0)
            }
        } else {
            (f.with_spammer(side, s.with_enabled(false)), 0)
        }
    } else {
        (m, 0)
    }
}

/// Scrolling changes the delay: it is asked for and a spammer runs.
pub open spec fn scrolling(m: StateModel, cli: Cli) -> bool {
    cli.scroll_changes_cps && (m.spammer(Side::Left).enabled || m.spammer(Side::Right).enabled)
}

/// The side whose delay scrolling changes: left while its spammer runs.
pub open spec fn scroll_side(m: StateModel) -> Side {
    if m.spammer(Side::Left).enabled {
        Side::Left
    } else {
        Side::Right
    }
}

/// The action that starts `n` workers of the side's spammer `s`, if any are
/// to start.
pub open spec fn starts(side: Side, s: Spammer, n: nat) -> Seq<Action> {
    if n > 0 {
        seq![Action::StartWorkers { count: n as usize, worker: worker_of(side, s) }]
    } else {
        Seq::empty()
    }
}

/// The outcome of one event: the state, the two times of the last press, and
/// the actions to take.
pub struct Step {
    pub state: StateModel,
    pub last_left_ns: u64,
    pub last_right_ns: u64,
    pub actions: Seq<Action>,
}

/// What one event from the mouse does. Left and right button events are sent
/// on and handled by `click_step`; a middle button event is sent on and
/// handled by `middle_step`; side and extra button events are kept back and
/// handled by `switch_step`; while `scrolling`, a wheel event is kept back
/// and asks for a rescale, and a high resolution wheel event is dropped;
/// every other event is sent on unchanged.
pub open spec fn event_step(
    m: StateModel,
    lp: EventLoop,
    cli: Cli,
    ev: InputEvent,
    now_ns: u64,
) -> Step {
    let keep = Step {
        state: m,
        last_left_ns: lp.last_left_click_ns,
        last_right_ns: lp.last_right_click_ns,
        actions: seq![Action::Forward(ev)],
    };
    if ev.kind == EV_KEY && ev.code == CODE_LEFT {
        let (s, last, n) = click_step(
            m,
            cli,
            Side::Left,
            ev.value,
            left_delay(m, cli),
            cli.start_delay_left_ns,
            lp.last_left_click_ns,
            now_ns,
        );
        Step {
            state: s,
            last_left_ns: last,
            actions: seq![Action::Forward(ev)] + starts(Side::Left, s.spammer(Side::Left), n),
            ..keep
        }
    } else if ev.kind == EV_KEY && ev.code == CODE_RIGHT {
        let (s, last, n) = click_step(
            m,
            cli,
            Side::Right,
            ev.value,
            cli.right_click_delay_ns,
            cli.start_delay_right_ns,
            lp.last_right_click_ns,
            now_ns,
        );
        Step {
            state: s,
            last_right_ns: last,
            actions: seq![Action::Forward(ev)] + starts(Side::Right, s.spammer(Side::Right), n),
            ..keep
        }
    } else if ev.kind == EV_KEY && ev.code == CODE_MIDDLE {
        Step { state: middle_step(m, cli, ev.value), ..keep }
    } else if ev.kind == EV_KEY && ev.code == CODE_SIDE {
        let (s, n) = switch_step(m, cli, Side::Left, ev.value);
        Step { state: s, actions: starts(Side::Left, s.spammer(Side::Left), n), ..keep }
    } else if ev.kind == EV_KEY && ev.code == CODE_EXTRA {
        let (s, n) = switch_step(m, cli, Side::Right, ev.value);
        Step { state: s, actions: starts(Side::Right, s.spammer(Side::Right), n), ..keep }
    } else if ev.kind == EV_REL && ev.code == REL_WHEEL && scrolling(m, cli) {
        let side = scroll_side(m);
        Step {
            actions: seq![
                Action::Rescale {
                    side: side,
                    delay_ns: m.spammer(side).click_delay_ns,
                    divide: ev.value > 0,
                    value: ev.value,
                },
            ],
            ..keep
        }
    } else if ev.kind == EV_REL && ev.code == REL_WHEEL_HI_RES && scrolling(m, cli) {
        Step { actions: Seq::empty(), ..keep }
    } else {
        keep
    }
}

/// The number of wheel notches of a scroll value.
pub open spec fn notches(value: i32) -> int {
    if value < 0 {
        -value
    } else {
        value as int
    }
}

/// The delay after a scroll by `value` notches, given `scaled_ns`, the side's
/// delay scaled by the factor: upward the scaled delay times the notches,
/// downward the same, no change without movement; then raised to the minimum
/// delay unless fast mode is on while the left spammer runs.
pub open spec fn scroll_step(m: StateModel, cli: Cli, side: Side, value: i32, scaled_ns: u64) -> StateModel {
    let s = m.spammer(side);
    let d = if value != 0 {
        scaled_ns * notches(value)
    } else {
        s.click_delay_ns as int
    };
    let kept = if !(m.fast_enabled && m.spammer(Side::Left).enabled) && d < cli.minimum_delay_ns {
        cli.minimum_delay_ns
    } else {
        d as u64
    };
    m.with_spammer(side, Spammer { click_delay_ns: kept, ..s })
}

/// Sets the side's spammer delay as `scroll_step` says.
pub fn finish_scroll(state: &mut SharedState, cli: &Cli, side: Side, value: i32, scaled_ns: u64)
    requires
        old(state)@.has_both(),
        scaled_ns * notches(value) <= u64::MAX,
    ensures
        final(state)@ == scroll_step(old(state)@, *cli, side, value, scaled_ns),
{
    let key = key_of(side);
    let ghost m0 = state@;
    let ghost s = m0.spammer(side);
    let current = match state.get_spammer(key) {
        Some(sp) => sp.click_delay_ns,
        None => 0,
    };
    let n: u64 = if value < 0 {
        (0i64 - (value as i64)) as u64
    } else {
        value as u64
    };
    assert(n == notches(value));
    let d: u64 = if value != 0 {
        scaled_ns * n
    } else {
        current
    };
    let fast_left = state.fast_enabled && match state.is_enabled_spammer(key_of(Side::Left)) {
        Some(b) => b,
        None => false,
    };
    let kept = if !fast_left && d < cli.minimum_delay_ns {
        cli.minimum_delay_ns
    } else {
        d
    };
    let _ = state.set_spammer_delay(key, kept);
    assert(state@ =~= scroll_step(m0, *cli, side, value, scaled_ns));
}

impl EventLoop {
    /// An event loop started at `now_ns`: both last presses are then.
    pub fn new(now_ns: u64) -> (lp: Self)
        ensures
            lp.last_left_click_ns == now_ns,
            lp.last_right_click_ns == now_ns,
    {
        EventLoop { last_left_click_ns: now_ns, last_right_click_ns: now_ns }
    }

    /// Handles one event from the mouse at time `now_ns` as `event_step` says
    /// and returns the actions the caller has to take, in order.
    pub fn process_event(
        &mut self,
        state: &mut SharedState,
        cli: &Cli,
        event: InputEvent,
        now_ns: u64,
    ) -> (actions: Vec<Action>)
        requires
            cli.mode != Mode::Always,
            old(state)@.has_both(),
        ensures
            ({
                let st = event_step(old(state)@, *old(self), *cli, event, now_ns);
                &&& final(state)@ == st.state
                &&& final(self).last_left_click_ns == st.last_left_ns
                &&& final(self).last_right_click_ns == st.last_right_ns
                &&& actions@ == st.actions
            }),
    {
        let ghost m0 = state@;
        let mut actions: Vec<Action> = Vec::new();
        if event.kind == EV_KEY && event.code == CODE_LEFT {
            actions.push(Action::Forward(event));
            let delay = if state.fast_enabled {
                cli.fast_click_delay_ns
            } else {
                cli.left_click_delay_ns
            };
            let n = handle_click(
                &event,
                state,
                cli,
                Side::Left,
                delay,
                cli.start_delay_left_ns,
                &mut self.last_left_click_ns,
                now_ns,
            );
            push_start(&mut actions, state, Side::Left, n);
        } else if event.kind == EV_KEY && event.code == CODE_RIGHT {
            actions.push(Action::Forward(event));
            let n = handle_click(
                &event,
                state,
                cli,
                Side::Right,
                cli.right_click_delay_ns,
                cli.start_delay_right_ns,
                &mut self.last_right_click_ns,
                now_ns,
            );
            push_start(&mut actions, state, Side::Right, n);
        } else if event.kind == EV_KEY && event.code == CODE_MIDDLE {
            actions.push(Action::Forward(event));
            if event.value == 1 && state.left_enabled {
                state.fast_enabled = !state.fast_enabled;
                let delay = if state.fast_enabled {
                    cli.fast_click_delay_ns
                } else {
                    cli.left_click_delay_ns
                };
                let _ = state.set_spammer_delay(key_of(Side::Left), delay);
            }
            assert(state@ =~= middle_step(m0, *cli, event.value));
        } else if event.kind == EV_KEY && event.code == CODE_SIDE {
            let n = switch_side(state, cli, Side::Left, event.value);
            push_start(&mut actions, state, Side::Left, n);
        } else if event.kind == EV_KEY && event.code == CODE_EXTRA {
            let n = switch_side(state, cli, Side::Right, event.value);
            push_start(&mut actions, state, Side::Right, n);
        } else if event.kind == EV_REL && is_scrolling(state, cli) {
            if event.code == REL_WHEEL {
                let left_on = match state.is_enabled_spammer(key_of(Side::Left)) {
                    Some(b) => b,
                    None => false,
                };
                let side = if left_on {
                    Side::Left
                } else {
                    Side::Right
                };
                let delay = match state.get_spammer(key_of(side)) {
                    Some(sp) => sp.click_delay_ns,
                    None => 0,
                };
                actions.push(
                    Action::Rescale { side: side, delay_ns: delay, divide: event.value > 0, value: event.value },
                );
            } else if event.code != REL_WHEEL_HI_RES {
                actions.push(Action::Forward(event));
            }
        } else {
            actions.push(Action::Forward(event));
        }
        assert(actions@ =~= event_step(m0, *old(self), *cli, event, now_ns).actions);
        actions
    }
}

/// Appends the action that starts `n` workers of the side's spammer, if any.
pub(crate) fn push_start(actions: &mut Vec<Action>, state: &SharedState, side: Side, n: usize)
    requires
        state@.spammers.contains_key(side_key(side)),
    ensures
        final(actions)@ == old(actions)@ + starts(side, state@.spammer(side), n as nat),
{
    if n > 0 {
        let sp = match state.get_spammer(key_of(side)) {
            Some(sp) => sp,
            None => Spammer::new(),
        };
        actions.push(Action::StartWorkers { count: n, worker: worker_for(side, &sp) });
    }
    assert(actions@ =~= old(actions)@ + starts(side, state@.spammer(side), n as nat));
}

/// Whether scrolling changes the delay now.
fn is_scrolling(state: &SharedState, cli: &Cli) -> (b: bool)
    requires
        state@.has_both(),
    ensures
        b == scrolling(state@, *cli),
{
    if !cli.scroll_changes_cps {
        return false;
    }
    let l = match state.is_enabled_spammer(key_of(Side::Left)) {
        Some(b) => b,
        None => false,
    };
    let r = match state.is_enabled_spammer(key_of(Side::Right)) {
        Some(b) => b,
        None => false,
    };
    l || r
}

/// Flips clicking of a side as `switch_step` says; returns how many workers start.
fn switch_side(state: &mut SharedState, cli: &Cli, side: Side, value: i32) -> (started: usize)
    requires
        old(state)@.has_both(),
    ensures
        ({
            let (m, n) = switch_step(old(state)@, *cli, side, value);
            final(state)@ == m && started == n
        }),
{
    let ghost m0 = state@;
    let ghost s = m0.spammer(side);
    let key = key_of(side);
    if value == 1 {
        let on = !side_enabled(state, side);
        set_side_enabled(state, side, on);
        if on {
            if cli.mode == Mode::Toggle {
                let delay = match side {
                    Side::Left => if state.fast_enabled {
                        cli.fast_click_delay_ns
                    } else {
                        cli.left_click_delay_ns
                    },
                    Side::Right => cli.right_click_delay_ns,
                };
                let _ = state.set_spammer_delay(key, delay);
                let r = state.enable_spammer(key);
                assert(state@ =~= switch_step(m0, *cli, side, value).0);
                match r {
                    Ok(n) => n,
                    Err(_) => 0,
                }
            } else {
                0
            }
        } else {
            let _ = state.disable_spammer(key);
            assert(state@ =~= switch_step(m0, *cli, side, value).0);
            0
        }
    } else {
        0
    }
}

} // verus!
