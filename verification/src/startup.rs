use vstd::prelude::*;

use crate::cli::{Cli, Mode};
use crate::event_loop::{push_start, starts, Action};
use crate::shared_state::{init, key_of, side_key, SharedState, Side, StateModel};
use crate::spammer::{Spammer, BTN_LEFT, BTN_RIGHT, PPM};

verus! {

/// The spammer of a side as the command line configures it, stopped and
/// counting its clicks.
pub open spec fn configured_spammer(cli: Cli, side: Side) -> Spammer {
    Spammer {
        click_delay_ns: match side {
            Side::Left => cli.left_click_delay_ns,
            Side::Right => cli.right_click_delay_ns,
        },
        key: match side {
            Side::Left => BTN_LEFT,
            Side::Right => BTN_RIGHT,
        },
        randomize: cli.randomize,
        deviation_ppm: if cli.deviation_ppm > PPM { PPM } else { cli.deviation_ppm },
        start_delay_ns: match side {
            Side::Left => cli.start_delay_left_ns,
            Side::Right => cli.start_delay_right_ns,
        },
        click_counter: true,
        quantity: cli.spammers as usize,
        enabled: false,
    }
}

/// Builds the spammer of a side from the command line.
pub fn spammer_for(cli: &Cli, side: Side) -> (s: Spammer)
    ensures
        s == configured_spammer(*cli, side),
        s.click_delay_ns == (if side == Side::Left {
            cli.left_click_delay_ns
        } else {
            cli.right_click_delay_ns
        }),
        s.key == (if side == Side::Left { BTN_LEFT } else { BTN_RIGHT }),
        s.start_delay_ns == (if side == Side::Left {
            cli.start_delay_left_ns
        } else {
            cli.start_delay_right_ns
        }),
        s.randomize == cli.randomize,
        s.deviation_ppm == (if cli.deviation_ppm > PPM { PPM } else { cli.deviation_ppm }),
        s.click_counter,
        s.quantity == cli.spammers as usize,
        !s.enabled,
{
    let (key, delay, start) = match side {
        Side::Left => (BTN_LEFT, cli.left_click_delay_ns, cli.start_delay_left_ns),
        Side::Right => (BTN_RIGHT, cli.right_click_delay_ns, cli.start_delay_right_ns),
    };
    Spammer::new()
        .click_counter()
        .key(key)
        .click_delay(delay)
        .start_delay(start)
        .quantity(cli.spammers as usize)
        .randomize(cli.randomize)
        .deviation(cli.deviation_ppm)
}

/// The state the program starts from: `init` of the command line with the
/// left and right spammers added.
pub fn setup(cli: &Cli) -> (s: SharedState)
    ensures
        s@ == (StateModel {
            left_enabled: cli.enable_left,
            right_enabled: cli.enable_right,
            fast_enabled: cli.enable_fast,
            click_counter: 0,
            cps: 0,
            spammers: Map::<Seq<char>, Spammer>::empty().insert(
                side_key(Side::Left),
                configured_spammer(*cli, Side::Left),
            ).insert(side_key(Side::Right), configured_spammer(*cli, Side::Right)),
        }),
        s@.has_both(),
{
    let mut state = init(cli);
    state.add_spammer(key_of(Side::Left), spammer_for(cli, Side::Left));
    state.add_spammer(key_of(Side::Right), spammer_for(cli, Side::Right));
    state
}

/// Starts the side's spammer when `flag` holds.
pub open spec fn enable_if(m: StateModel, side: Side, flag: bool) -> (StateModel, Seq<Action>) {
    let s = m.spammer(side);
    if flag {
        (
            m.with_spammer(side, s.with_enabled(true)),
            starts(side, s.with_enabled(true), if s.enabled { 0 } else { s.quantity as nat }),
        )
    } else {
        (m, Seq::empty())
    }
}

/// Starts the spammers of the sides that start switched on, left first,
/// whatever the mode.
pub open spec fn flagged_step(m: StateModel, cli: Cli) -> (StateModel, Seq<Action>) {
    let (l, a) = enable_if(m, Side::Left, cli.enable_left);
    let (r, b) = enable_if(l, Side::Right, cli.enable_right);
    (r, a + b)
}

/// What happens before the first event: in always mode, and in toggle mode
/// after giving the left spammer the fast delay when fast mode starts on,
/// the spammers of the sides that start switched on are started
/// (`flagged_step`); in the other modes nothing happens.
pub open spec fn startup_step(m: StateModel, cli: Cli) -> (StateModel, Seq<Action>) {
    if cli.mode == Mode::Always {
        flagged_step(m, cli)
    } else if cli.mode == Mode::Toggle {
        let f = if cli.enable_fast {
            m.with_spammer(
                Side::Left,
                Spammer { click_delay_ns: cli.fast_click_delay_ns, ..m.spammer(Side::Left) },
            )
        } else {
            m
        };
        flagged_step(f, cli)
    } else {
        (m, Seq::empty())
    }
}

/// The spammers that starting the flagged sides needs are there.
pub open spec fn has_flagged(m: StateModel, cli: Cli) -> bool {
    &&& cli.enable_left ==> m.spammers.contains_key(side_key(Side::Left))
    &&& cli.enable_right ==> m.spammers.contains_key(side_key(Side::Right))
}

/// Starts the side's spammer when `flag` holds, as `enable_if` says.
fn enable_side_if(state: &mut SharedState, side: Side, flag: bool, actions: &mut Vec<Action>)
    requires
        flag ==> old(state)@.spammers.contains_key(side_key(side)),
    ensures
        final(state)@ == enable_if(old(state)@, side, flag).0,
        final(actions)@ == old(actions)@ + enable_if(old(state)@, side, flag).1,
        final(state)@.spammers.dom() == old(state)@.spammers.dom(),
{
    let ghost m0 = state@;
    if flag {
        let n = match state.enable_spammer(key_of(side)) {
            Ok(n) => n,
            Err(_) => 0,
        };
        push_start(actions, state, side, n);
        assert(state@ =~= enable_if(m0, side, flag).0);
        assert(state@.spammers.dom() =~= m0.spammers.dom());
    }
    assert(actions@ =~= old(actions)@ + enable_if(m0, side, flag).1);
}

/// Starts the spammers of the sides the command line switches on, whatever
/// the mode, as `flagged_step` says; returns the workers to start.
pub fn enable_flagged(state: &mut SharedState, cli: &Cli) -> (actions: Vec<Action>)
    requires
        has_flagged(old(state)@, *cli),
    ensures
        final(state)@ == flagged_step(old(state)@, *cli).0,
        actions@ == flagged_step(old(state)@, *cli).1,
{
    let mut actions: Vec<Action> = Vec::new();
    enable_side_if(state, Side::Left, cli.enable_left, &mut actions);
    enable_side_if(state, Side::Right, cli.enable_right, &mut actions);
    actions
}

/// Takes the steps of `startup_step` and returns the workers to start.
pub fn startup(state: &mut SharedState, cli: &Cli) -> (actions: Vec<Action>)
    requires
        (cli.mode == Mode::Always || cli.mode == Mode::Toggle) ==> has_flagged(old(state)@, *cli),
        (cli.mode == Mode::Toggle && cli.enable_fast) ==> old(state)@.spammers.contains_key(
            side_key(Side::Left),
        ),
    ensures
        final(state)@ == startup_step(old(state)@, *cli).0,
        actions@ == startup_step(old(state)@, *cli).1,
{
    let ghost m0 = state@;
    if cli.mode == Mode::Always {
        enable_flagged(state, cli)
    } else if cli.mode == Mode::Toggle {
        if cli.enable_fast {
            let _ = state.set_spammer_delay(key_of(Side::Left), cli.fast_click_delay_ns);
            assert(state@.spammers.dom() =~= m0.spammers.dom());
        }
        enable_flagged(state, cli)
    } else {
        Vec::new()
    }
}

} // verus!
