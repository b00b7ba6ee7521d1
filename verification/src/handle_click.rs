use vstd::prelude::*;

use crate::cli::{Cli, Mode};
use crate::shared_state::{key_of, side_key, SharedState, Side, StateModel};
use crate::spammer::Spammer;

verus! {

/// An event read from the mouse: its type, its code and its value.
#[derive(Clone, Copy, Debug, PartialEq, Eq, Structural)]
pub struct InputEvent {
    /// The event type: 1 for buttons, 2 for relative axes such as the wheel.
    pub kind: u16,
    /// The button or axis.
    pub code: u16,
    /// For a button 1 on press and 0 on release; for an axis the movement.
    pub value: i32,
}

/// Time from `last_ns` to `now_ns`, zero when `now_ns` is not later.
pub open spec fn elapsed(last_ns: u64, now_ns: u64) -> int {
    if now_ns >= last_ns {
        now_ns - last_ns
    } else {
        0
    }
}

/// What a press (`value` 1) or release (`value` 0) of a side's button does to
/// the state, to the time of that side's last click, and how many workers it
/// starts. A press is always counted. While the side is switched on: in hold
/// mode a press starts the spammer with `delay_ns` and a release stops it; in
/// toggle mode a press stops clicking of that side when `disable_on_click` is
/// set; in both mode a press sets the delay, notes the time and toggles the
/// spammer, and a release stops it once the press is older than
/// `start_delay_ns`.
pub open spec fn click_step(
    m: StateModel,
    cli: Cli,
    side: Side,
    value: i32,
    delay_ns: u64,
    start_delay_ns: u64,
    last_ns: u64,
    now_ns: u64,
) -> (StateModel, u64, nat) {
    let s = m.spammer(side);
    if value == 1 {
        let c = m.counted();
        if !m.side_enabled(side) {
            (c, last_ns, 0)
        } else {
            match cli.mode {
                Mode::Hold => (
                    c.with_spammer(side, Spammer { click_delay_ns: delay_ns, ..s }.with_enabled(true)),
                    last_ns,
                    if s.enabled { 0 } else { s.quantity as nat },
                ),
                Mode::Toggle => if cli.disable_on_click {
                    (c.with_side(side, false).with_spammer(side, s.with_enabled(false)), last_ns, 0)
                } else {
                    (c, last_ns, 0)
                },
                Mode::Both => (
                    c.with_spammer(
                        side,
                        Spammer { click_delay_ns: delay_ns, ..s }.with_enabled(!s.enabled),
                    ),
                    now_ns,
                    if s.enabled { 0 } else { s.quantity as nat },
                ),
                Mode::Always => (c, last_ns, 0),
            }
        }
    } else if value == 0 && m.side_enabled(side) {
        match cli.mode {
            Mode::Hold => (m.with_spammer(side, s.with_enabled(false)), last_ns, 0),
            Mode::Both => if elapsed(last_ns, now_ns) > start_delay_ns {
                (m.with_spammer(side, s.with_enabled(false)), last_ns, 0)
            } else {
                (m, last_ns, 0)
            },
            _ => (m, last_ns, 0),
        }
    } else {
        (m, last_ns, 0)
    }
}

/// Whether a press or release of the side's button reads or changes the
/// side's spammer: only while the side is switched on, for a press in hold
/// or both mode or in toggle mode with `disable_on_click`, and for a release
/// in hold mode or in both mode once the press is older than the start delay.
pub open spec fn touches_spammer(
    m: StateModel,
    cli: Cli,
    side: Side,
    value: i32,
    start_delay_ns: u64,
    last_ns: u64,
    now_ns: u64,
) -> bool {
    &&& m.side_enabled(side)
    &&& {
        ||| value == 1 && (cli.mode == Mode::Hold || cli.mode == Mode::Both || (cli.mode
            == Mode::Toggle && cli.disable_on_click))
        ||| value == 0 && (cli.mode == Mode::Hold || (cli.mode == Mode::Both && elapsed(
            last_ns,
            now_ns,
        ) > start_delay_ns))
    }
}

/// Whether clicking of the side is switched on.
pub fn side_enabled(state: &SharedState, side: Side) -> (b: bool)
    ensures
        b == state@.side_enabled(side),
{
    match side {
        Side::Left => state.left_enabled,
        Side::Right => state.right_enabled,
    }
}

/// Switches clicking of the side on or off.
pub fn set_side_enabled(state: &mut SharedState, side: Side, on: bool)
    ensures
        final(state)@ == old(state)@.with_side(side, on),
{
    match side {
        Side::Left => state.left_enabled = on,
        Side::Right => state.right_enabled = on,
    }
}

/// Handles a press or release of the left or right button, as `click_step`
/// says. `now_ns` is the current time; returns how many workers of the side's
/// spammer the caller has to start. Always mode never reaches a press or
/// release of a switched-on side, and the side's spammer is there whenever
/// the step reads or changes it.
pub fn handle_click(
    event: &InputEvent,
    state: &mut SharedState,
    cli: &Cli,
    side: Side,
    click_delay_ns: u64,
    start_delay_ns: u64,
    last_click_ns: &mut u64,
    now_ns: u64,
) -> (started: usize)
    requires
        (event.value == 0 || event.value == 1) && old(state)@.side_enabled(side) ==> cli.mode
            != Mode::Always,
        touches_spammer(
            old(state)@,
            *cli,
            side,
            event.value,
            start_delay_ns,
            *old(last_click_ns),
            now_ns,
        ) ==> old(state)@.spammers.contains_key(side_key(side)),
    ensures
        ({
            let (m, last, n) = click_step(
                old(state)@,
                *cli,
                side,
                event.value,
                click_delay_ns,
                start_delay_ns,
                *old(last_click_ns),
                now_ns,
            );
            &&& final(state)@ == m
            &&& *final(last_click_ns) == last
            &&& started == n
        }),
{
    let key = key_of(side);
    let ghost m0 = state@;
    let ghost s = m0.spammers[side_key(side)];
    if event.value == 1 {
        state.count_click();
        if side_enabled(state, side) {
            match cli.mode {
                Mode::Hold => {
                    let _ = state.set_spammer_delay(key, click_delay_ns);
                    let r = state.enable_spammer(key);
                    assert(state@ =~= m0.counted().with_spammer(
                        side,
                        Spammer { click_delay_ns: click_delay_ns, ..s }.with_enabled(true),
                    ));
                    match r {
                        Ok(n) => n,
                        Err(_) => 0,
                    }
                },
                Mode::Toggle => {
                    if cli.disable_on_click {
                        set_side_enabled(state, side, false);
                        let _ = state.disable_spammer(key);
                        assert(state@ =~= m0.counted().with_side(side, false).with_spammer(
                            side,
                            s.with_enabled(false),
                        ));
                    }
                    0
                },
                Mode::Both => {
                    let _ = state.set_spammer_delay(key, click_delay_ns);
                    *last_click_ns = now_ns;
                    let r = state.toggle_spammer(key);
                    assert(state@ =~= m0.counted().with_spammer(
                        side,
                        Spammer { click_delay_ns: click_delay_ns, ..s }.with_enabled(!s.enabled),
                    ));
                    match r {
                        Some(true) => {
                            match state.get_spammer(key) {
                                Some(sp) => sp.quantity,
                                None => 0,
                            }
                        },
                        _ => 0,
                    }
                },
                Mode::Always => 0,
            }
        } else {
            0
        }
    } else if event.value == 0 && side_enabled(state, side) {
        match cli.mode {
            Mode::Hold => {
                let _ = state.disable_spammer(key);
                assert(state@ =~= m0.with_spammer(side, s.with_enabled(false)));
                0
            },
            Mode::Both => {
                let since: u64 = now_ns.saturating_sub(*last_click_ns);
                if since > start_delay_ns {
                    let _ = state.disable_spammer(key);
                    assert(state@ =~= m0.with_spammer(side, s.with_enabled(false)));
                }
                0
            },
            _ => 0,
        }
    } else {
        0
    }
}

} // verus!
