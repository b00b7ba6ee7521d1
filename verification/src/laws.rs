//! Properties of the library that span several calls or hold of every state.
use vstd::prelude::*;

use crate::cli::{Cli, Mode};
use crate::cps::{last_n, sum, window_for};
use crate::interface::{
    bool_text, decimal, lemma_decimal_roundtrip, spaces, status_text, widest_status,
};
use crate::event_loop::{
    event_step, left_delay, middle_step, notches, scroll_side, scroll_step, switch_delay, switch_step,
    Action, EventLoop, CODE_EXTRA, CODE_LEFT, CODE_RIGHT, EV_KEY, EV_REL,
    REL_WHEEL, REL_WHEEL_HI_RES,
};
use crate::handle_click::{click_step, elapsed, InputEvent};
use crate::shared_state::{after_click, side_key, switched, toggled, workers_to_start, Side, StateModel};
use crate::spammer::{highest_delay, lowest_delay, spread, Spammer, BTN_LEFT, BTN_RIGHT, PPM};
use crate::startup::{configured_spammer, flagged_step, has_flagged, startup_step};
use crate::worker::{counter_after, worker_of};

verus! {

/// Toggling a spammer twice gives back the spammers as they were.
pub proof fn law_toggle_twice(m: Map<Seq<char>, Spammer>, key: Seq<char>)
    ensures
        toggled(toggled(m, key), key) == m,
{
    if m.contains_key(key) {
        assert(toggled(toggled(m, key), key) =~= m);
    }
}

/// Of two switches of the same spammer the second decides; in particular a
/// second start leaves the spammers as the first one did.
pub proof fn law_switch_last_wins(m: Map<Seq<char>, Spammer>, key: Seq<char>, a: bool, b: bool)
    ensures
        switched(switched(m, key, a), key, b) == switched(m, key, b),
        switched(switched(m, key, true), key, true) == switched(m, key, true),
{
    if m.contains_key(key) {
        assert(switched(switched(m, key, a), key, b) =~= switched(m, key, b));
    }
}

/// A started spammer runs and starting it again starts no worker; its
/// configuration stays as it was.
pub proof fn law_started_runs(m: Map<Seq<char>, Spammer>, key: Seq<char>)
    requires
        m.contains_key(key),
    ensures
        switched(m, key, true)[key].enabled,
        workers_to_start(switched(m, key, true)[key]) == 0,
        switched(m, key, true)[key].click_delay_ns == m[key].click_delay_ns,
        switched(m, key, true)[key].quantity == m[key].quantity,
        !switched(m, key, false)[key].enabled,
{
}

/// A spammer added under a name is the one found under that name, and the
/// others stay.
pub proof fn law_added_is_found(m: Map<Seq<char>, Spammer>, key: Seq<char>, s: Spammer, other: Seq<char>)
    requires
        other != key,
    ensures
        m.insert(key, s).get(key) == Some(s),
        m.insert(key, s).get(other) == m.get(other),
{
}

/// In hold mode, while the side is switched on, a press starts the side's
/// spammer with the given delay and a later release stops it again.
pub proof fn law_hold_press_release(
    m: StateModel,
    cli: Cli,
    side: Side,
    delay_ns: u64,
    start_delay_ns: u64,
    last_ns: u64,
    press_ns: u64,
    release_ns: u64,
)
    requires
        cli.mode == Mode::Hold,
        m.spammers.contains_key(side_key(side)),
        m.side_enabled(side),
    ensures
        ({
            let (pressed, last, _) = click_step(m, cli, side, 1, delay_ns, start_delay_ns, last_ns, press_ns);
            let (released, _, n) = click_step(pressed, cli, side, 0, delay_ns, start_delay_ns, last, release_ns);
            &&& pressed.spammer(side).enabled
            &&& pressed.spammer(side).click_delay_ns == delay_ns
            &&& !released.spammer(side).enabled
            &&& released.spammer(side).click_delay_ns == delay_ns
            &&& n == 0
        }),
{
}

/// In toggle mode with `disable_on_click`, a press while the side is
/// switched on switches it off and stops its spammer.
pub proof fn law_toggle_click_disables(
    m: StateModel,
    cli: Cli,
    side: Side,
    delay_ns: u64,
    start_delay_ns: u64,
    last_ns: u64,
    now_ns: u64,
)
    requires
        cli.mode == Mode::Toggle,
        cli.disable_on_click,
        m.spammers.contains_key(side_key(side)),
        m.side_enabled(side),
    ensures
        ({
            let (after, _, n) = click_step(m, cli, side, 1, delay_ns, start_delay_ns, last_ns, now_ns);
            &&& !after.side_enabled(side)
            &&& !after.spammer(side).enabled
            &&& n == 0
        }),
{
}

/// In both mode a press toggles the side's spammer; releasing it within the
/// start delay keeps it so (toggle), releasing it later stops it (hold).
pub proof fn law_both_short_and_long_press(
    m: StateModel,
    cli: Cli,
    side: Side,
    delay_ns: u64,
    start_delay_ns: u64,
    last_ns: u64,
    press_ns: u64,
    release_ns: u64,
)
    requires
        cli.mode == Mode::Both,
        m.spammers.contains_key(side_key(side)),
        m.side_enabled(side),
    ensures
        ({
            let (pressed, last, _) = click_step(m, cli, side, 1, delay_ns, start_delay_ns, last_ns, press_ns);
            let (released, _, _) = click_step(pressed, cli, side, 0, delay_ns, start_delay_ns, last, release_ns);
            &&& last == press_ns
            &&& pressed.spammer(side).enabled == !m.spammer(side).enabled
            &&& (elapsed(press_ns, release_ns) <= start_delay_ns ==> released == pressed)
            &&& (elapsed(press_ns, release_ns) > start_delay_ns ==> !released.spammer(side).enabled)
        }),
{
}

/// Every press of a clicking button is counted, whatever the mode and
/// whether or not its side is switched on, and a release is not.
pub proof fn law_presses_counted(
    m: StateModel,
    cli: Cli,
    side: Side,
    delay_ns: u64,
    start_delay_ns: u64,
    last_ns: u64,
    now_ns: u64,
)
    ensures
        click_step(m, cli, side, 1, delay_ns, start_delay_ns, last_ns, now_ns).0.click_counter
            == after_click(m.click_counter),
        click_step(m, cli, side, 0, delay_ns, start_delay_ns, last_ns, now_ns).0.click_counter
            == m.click_counter,
{
}

/// While the side is switched off, or for a value that is neither a press
/// nor a release, a click changes nothing but the click counter.
pub proof fn law_click_when_off(
    m: StateModel,
    cli: Cli,
    side: Side,
    value: i32,
    delay_ns: u64,
    start_delay_ns: u64,
    last_ns: u64,
    now_ns: u64,
)
    requires
        !m.side_enabled(side) || (value != 0 && value != 1),
    ensures
        ({
            let (after, last, n) = click_step(m, cli, side, value, delay_ns, start_delay_ns, last_ns, now_ns);
            &&& after == StateModel { click_counter: after.click_counter, ..m }
            &&& last == last_ns
            &&& n == 0
        }),
{
}

/// In toggle mode a release, or a press without `disable_on_click`, neither
/// starts nor stops anything: it only counts the press.
pub proof fn law_toggle_plain_click(
    m: StateModel,
    cli: Cli,
    side: Side,
    value: i32,
    delay_ns: u64,
    start_delay_ns: u64,
    last_ns: u64,
    now_ns: u64,
)
    requires
        cli.mode == Mode::Toggle,
        value == 0 || (value == 1 && !cli.disable_on_click),
    ensures
        ({
            let (after, last, n) = click_step(m, cli, side, value, delay_ns, start_delay_ns, last_ns, now_ns);
            &&& after == StateModel { click_counter: after.click_counter, ..m }
            &&& last == last_ns
            &&& n == 0
        }),
{
}

/// Starting the flagged sides, whatever the mode, leaves the spammer of
/// every side that starts switched on running and touches no other.
pub proof fn law_flagged_run(m: StateModel, cli: Cli, other: Seq<char>)
    requires
        has_flagged(m, cli),
        other != side_key(Side::Left),
        other != side_key(Side::Right),
    ensures
        cli.enable_left ==> flagged_step(m, cli).0.spammer(Side::Left).enabled,
        cli.enable_right ==> flagged_step(m, cli).0.spammer(Side::Right).enabled,
        !cli.enable_left ==> flagged_step(m, cli).0.spammers.get(side_key(Side::Left))
            == m.spammers.get(side_key(Side::Left)),
        !cli.enable_right ==> flagged_step(m, cli).0.spammers.get(side_key(Side::Right))
            == m.spammers.get(side_key(Side::Right)),
        flagged_step(m, cli).0.spammers.get(other) == m.spammers.get(other),
{
    assert(side_key(Side::Left) != side_key(Side::Right));
}

/// The other side of a click: a press or release of one side's button leaves
/// the other side's switch and spammer, fast mode and the measured rate alone.
pub proof fn law_click_keeps_other_side(
    m: StateModel,
    cli: Cli,
    side: Side,
    other: Side,
    value: i32,
    delay_ns: u64,
    start_delay_ns: u64,
    last_ns: u64,
    now_ns: u64,
)
    requires
        other != side,
    ensures
        ({
            let (after, _, _) = click_step(m, cli, side, value, delay_ns, start_delay_ns, last_ns, now_ns);
            &&& after.side_enabled(other) == m.side_enabled(other)
            &&& after.spammers.get(side_key(other)) == m.spammers.get(side_key(other))
            &&& after.fast_enabled == m.fast_enabled
            &&& after.cps == m.cps
        }),
{
    assert(side_key(other) != side_key(side));
}

/// Pressing a switch button twice gives back the side's switch, and leaves
/// its spammer stopped when the first press had switched the side on.
pub proof fn law_switch_twice(m: StateModel, cli: Cli, side: Side)
    requires
        m.spammers.contains_key(side_key(side)),
    ensures
        ({
            let (once, _) = switch_step(m, cli, side, 1);
            let (twice, n) = switch_step(once, cli, side, 1);
            &&& once.side_enabled(side) == !m.side_enabled(side)
            &&& twice.side_enabled(side) == m.side_enabled(side)
            &&& (!m.side_enabled(side) ==> !twice.spammer(side).enabled)
            &&& (!m.side_enabled(side) ==> n == 0)
        }),
{
}

/// Switching a side on in toggle mode starts its spammer with the delay that
/// applies, and with `quantity` workers when it was stopped.
pub proof fn law_switch_on_starts(m: StateModel, cli: Cli, side: Side)
    requires
        cli.mode == Mode::Toggle,
        m.spammers.contains_key(side_key(side)),
        !m.side_enabled(side),
    ensures
        ({
            let (after, n) = switch_step(m, cli, side, 1);
            &&& after.side_enabled(side)
            &&& after.spammer(side).enabled
            &&& after.spammer(side).click_delay_ns == switch_delay(after, cli, side)
            &&& n == workers_to_start(m.spammer(side))
        }),
{
}

/// Releasing a switch button, or any value but a press, changes nothing.
pub proof fn law_switch_release_ignored(m: StateModel, cli: Cli, side: Side, value: i32)
    requires
        value != 1,
    ensures
        switch_step(m, cli, side, value) == (m, 0nat),
{
}

/// Pressing the middle button twice while left clicking is on gives back
/// fast mode as it was, and the left spammer then has the delay that fast
/// mode calls for.
pub proof fn law_middle_twice(m: StateModel, cli: Cli)
    requires
        m.left_enabled,
        m.spammers.contains_key(side_key(Side::Left)),
    ensures
        middle_step(middle_step(m, cli, 1), cli, 1).fast_enabled == m.fast_enabled,
        middle_step(m, cli, 1).fast_enabled == !m.fast_enabled,
        middle_step(middle_step(m, cli, 1), cli, 1).spammer(Side::Left).click_delay_ns
            == left_delay(m, cli),
{
}

/// After a scroll the delay is at least the minimum delay, unless fast mode
/// is on while the left spammer runs; the other spammer stays as it was.
pub proof fn law_scroll_minimum(m: StateModel, cli: Cli, side: Side, other: Side, value: i32, scaled_ns: u64)
    requires
        m.spammers.contains_key(side_key(side)),
        other != side,
        scaled_ns * notches(value) <= u64::MAX,
    ensures
        !(m.fast_enabled && m.spammer(Side::Left).enabled) ==> scroll_step(
            m,
            cli,
            side,
            value,
            scaled_ns,
        ).spammer(side).click_delay_ns >= cli.minimum_delay_ns,
        scroll_step(m, cli, side, value, scaled_ns).spammers.get(side_key(other)) == m.spammers.get(
            side_key(other),
        ),
        scroll_step(m, cli, side, value, scaled_ns).spammer(side).enabled == m.spammer(side).enabled,
{
    assert(side_key(other) != side_key(side));
}

/// Scrolling changes the left delay while the left spammer runs, even when
/// the right one runs too.
pub proof fn law_scroll_prefers_left(m: StateModel)
    ensures
        m.spammer(Side::Left).enabled ==> scroll_side(m) == Side::Left,
        !m.spammer(Side::Left).enabled ==> scroll_side(m) == Side::Right,
{
}

/// Events keep the spammers' names: every event leaves exactly the spammers
/// it found, so both sides keep theirs for the next event.
pub proof fn law_events_keep_spammers(m: StateModel, lp: EventLoop, cli: Cli, ev: InputEvent, now_ns: u64)
    requires
        m.has_both(),
        cli.mode != Mode::Always,
    ensures
        event_step(m, lp, cli, ev, now_ns).state.spammers.dom() == m.spammers.dom(),
        event_step(m, lp, cli, ev, now_ns).state.has_both(),
{
    let after = event_step(m, lp, cli, ev, now_ns).state;
    assert(after.spammers.dom() =~= m.spammers.dom());
}

/// An event that is none of the five buttons and no wheel event while
/// scrolling changes the delay is sent on unchanged and changes nothing.
pub proof fn law_other_events_forwarded(m: StateModel, lp: EventLoop, cli: Cli, ev: InputEvent, now_ns: u64)
    requires
        !(ev.kind == EV_KEY && CODE_LEFT <= ev.code <= CODE_EXTRA),
        !(ev.kind == EV_REL && (ev.code == REL_WHEEL || ev.code == REL_WHEEL_HI_RES)),
    ensures
        event_step(m, lp, cli, ev, now_ns).state == m,
        event_step(m, lp, cli, ev, now_ns).actions == seq![Action::Forward(ev)],
        event_step(m, lp, cli, ev, now_ns).last_left_ns == lp.last_left_click_ns,
        event_step(m, lp, cli, ev, now_ns).last_right_ns == lp.last_right_click_ns,
{
}

/// Before the first event, hold and both mode start nothing; always mode
/// leaves the spammer of every side that starts switched on running.
pub proof fn law_startup(m: StateModel, cli: Cli)
    requires
        m.has_both(),
    ensures
        (cli.mode == Mode::Hold || cli.mode == Mode::Both) ==> startup_step(m, cli) == (
        m,
        Seq::<Action>::empty()),
        cli.mode == Mode::Always && cli.enable_left ==> startup_step(m, cli).0.spammer(
            Side::Left,
        ).enabled,
        cli.mode == Mode::Always && cli.enable_right ==> startup_step(m, cli).0.spammer(
            Side::Right,
        ).enabled,
{
    assert(side_key(Side::Left) != side_key(Side::Right));
}

/// Without deviation a randomized delay is the base delay itself.
pub proof fn law_no_deviation(nanos: u64)
    ensures
        lowest_delay(nanos, 0) == nanos,
        highest_delay(nanos, 0) == nanos,
{
    assert((nanos as int * 0int) / (PPM as int) == 0) by (nonlinear_arith);
    assert(spread(nanos, 0) == 0);
}

/// The window holds the latest counts, at most `n` of them.
pub proof fn law_window_is_latest(h: Seq<u64>, n: nat)
    ensures
        last_n(h, n).len() == if h.len() <= n { h.len() } else { n },
        forall|i: int|
            0 <= i < last_n(h, n).len() ==> #[trigger] last_n(h, n)[i] == h[h.len() - last_n(
                h,
                n,
            ).len() + i],
{
}

/// `count` copies of `c`.
pub open spec fn repeated(c: u64, count: nat) -> Seq<u64> {
    Seq::new(count, |i: int| c)
}

proof fn lemma_sum_repeated(c: u64, count: nat)
    ensures
        sum(repeated(c, count)) == count * c,
    decreases count,
{
    if count > 0 {
        lemma_sum_repeated(c, (count - 1) as nat);
        assert(repeated(c, count).drop_last() =~= repeated(c, (count - 1) as nat));
        assert(repeated(c, count).last() == c);
        assert(sum(repeated(c, count)) == sum(repeated(c, (count - 1) as nat)) + c);
        let k = (count - 1) as nat;
        assert(sum(repeated(c, k)) == k * c);
        assert(count * c == k * c + c) by (nonlinear_arith)
            requires
                k == count - 1,
        ;
    } else {
        assert(sum(repeated(c, count)) == 0);
    }
}

/// Clicking steadily: once the same count has been recorded for a whole
/// window of intervals, the measured rate is that count times the window.
pub proof fn law_steady_rate(h: Seq<u64>, c: u64, window: nat)
    ensures
        sum(last_n(h + repeated(c, window), window)) == window * c,
{
    let all = h + repeated(c, window);
    assert(last_n(all, window) =~= repeated(c, window));
    lemma_sum_repeated(c, window);
}

/// The counter after `n` made clicks of a worker that counts them as
/// `counted` says, starting from `counter`.
pub open spec fn after_clicks(counter: u64, counted: bool, n: nat) -> u64
    decreases n,
{
    if n == 0 {
        counter
    } else {
        counter_after(after_clicks(counter, counted, (n - 1) as nat), counted)
    }
}

/// Every click a worker completes adds exactly one to the click counter when
/// its spammer counts clicks, and nothing otherwise (as long as the counter
/// does not wrap around).
pub proof fn law_one_count_per_click(side: Side, s: Spammer, counter: u64, n: nat)
    requires
        counter + n <= u64::MAX,
    ensures
        after_clicks(counter, worker_of(side, s).counted, n) == if s.click_counter {
            counter + n
        } else {
            counter as int
        },
    decreases n,
{
    if n > 0 {
        law_one_count_per_click(side, s, counter, (n - 1) as nat);
    }
}

/// The counter and the total handed to measurements after a run of events
/// from `counter`, with `drained` handed over before: `true` is a counted
/// click (`count_click`, a counted `finish_click`, or a press in
/// `click_step`), `false` a measurement (`take_clicks` or `measure`), which
/// hands over the whole counter and resets it.
pub open spec fn replay_counter(counter: u64, drained: int, events: Seq<bool>) -> (u64, int)
    decreases events.len(),
{
    if events.len() == 0 {
        (counter, drained)
    } else {
        let (c, d) = replay_counter(counter, drained, events.drop_last());
        if events.last() {
            (after_click(c), d)
        } else {
            (0, d + c)
        }
    }
}

/// How many of the events are clicks.
pub open spec fn clicks_in(events: Seq<bool>) -> nat
    decreases events.len(),
{
    if events.len() == 0 {
        0
    } else {
        clicks_in(events.drop_last()) + if events.last() { 1nat } else { 0nat }
    }
}

/// No click is lost or counted twice: at every point, what the measurements
/// have taken plus what the counter holds is what it held at the start plus
/// the clicks since, as long as that total fits in a `u64`.
pub proof fn law_clicks_conserved(counter: u64, drained: int, events: Seq<bool>)
    requires
        counter + clicks_in(events) <= u64::MAX,
    ensures
        replay_counter(counter, drained, events).0 + replay_counter(counter, drained, events).1
            == counter + drained + clicks_in(events),
    decreases events.len(),
{
    if events.len() > 0 {
        let prefix = events.drop_last();
        law_clicks_conserved(counter, drained, prefix);
        let (c, d) = replay_counter(counter, drained, prefix);
        lemma_clicks_in_le(prefix, events);
        lemma_drained_grows(counter, drained, prefix);
        if events.last() {
            assert(c + 1 <= u64::MAX);
            assert(after_click(c) == c + 1);
        }
    }
}

proof fn lemma_clicks_in_le(prefix: Seq<bool>, events: Seq<bool>)
    requires
        events.len() > 0,
        prefix == events.drop_last(),
    ensures
        clicks_in(prefix) + (if events.last() { 1nat } else { 0nat }) == clicks_in(events),
{
}

proof fn lemma_drained_grows(counter: u64, drained: int, events: Seq<bool>)
    ensures
        replay_counter(counter, drained, events).1 >= drained,
    decreases events.len(),
{
    if events.len() > 0 {
        lemma_drained_grows(counter, drained, events.drop_last());
    }
}

/// In both mode a press of a switched-on side whose spammer is stopped
/// starts the spammer with the given delay and asks for as many workers as
/// the spammer's quantity; a press while it runs stops it and asks for none.
pub proof fn law_both_press_starts_workers(
    m: StateModel,
    cli: Cli,
    side: Side,
    delay_ns: u64,
    start_delay_ns: u64,
    last_ns: u64,
    now_ns: u64,
)
    requires
        cli.mode == Mode::Both,
        m.spammers.contains_key(side_key(side)),
        m.side_enabled(side),
    ensures
        ({
            let (after, _, n) = click_step(m, cli, side, 1, delay_ns, start_delay_ns, last_ns, now_ns);
            &&& n == workers_to_start(m.spammer(side))
            &&& !m.spammer(side).enabled ==> n == m.spammer(side).quantity
            &&& m.spammer(side).enabled ==> n == 0
            &&& after.spammer(side).click_delay_ns == delay_ns
            &&& after.spammer(side).quantity == m.spammer(side).quantity
        }),
{
}

/// In hold mode a press of a switched-on side asks for as many workers as
/// the stopped spammer's quantity, and none when it already runs.
pub proof fn law_hold_press_starts_workers(
    m: StateModel,
    cli: Cli,
    side: Side,
    delay_ns: u64,
    start_delay_ns: u64,
    last_ns: u64,
    now_ns: u64,
)
    requires
        cli.mode == Mode::Hold,
        m.spammers.contains_key(side_key(side)),
        m.side_enabled(side),
    ensures
        ({
            let (_, _, n) = click_step(m, cli, side, 1, delay_ns, start_delay_ns, last_ns, now_ns);
            &&& !m.spammer(side).enabled ==> n == m.spammer(side).quantity
            &&& m.spammer(side).enabled ==> n == 0
        }),
{
}

/// A press of the right button in hold or both mode while the right side is
/// on gives the right spammer the right click delay; a press of the left
/// button gives the left spammer the fast delay in fast mode and the left
/// delay otherwise. The press is sent on first, and workers are asked for
/// exactly when the spammer was stopped and has any.
pub proof fn law_press_uses_its_side_delay(m: StateModel, lp: EventLoop, cli: Cli, value: i32, now_ns: u64)
    requires
        m.has_both(),
        cli.mode == Mode::Hold || cli.mode == Mode::Both,
    ensures
        ({
            let ev = InputEvent { kind: EV_KEY, code: CODE_RIGHT, value: 1 };
            let st = event_step(m, lp, cli, ev, now_ns);
            m.right_enabled ==> {
                &&& st.state.spammer(Side::Right).click_delay_ns == cli.right_click_delay_ns
                &&& st.state.spammers.get(side_key(Side::Left)) == m.spammers.get(side_key(Side::Left))
                &&& st.actions[0] == Action::Forward(ev)
                &&& st.actions.len() == (if !m.spammer(Side::Right).enabled
                    && m.spammer(Side::Right).quantity > 0 { 2nat } else { 1nat })
            }
        }),
        ({
            let ev = InputEvent { kind: EV_KEY, code: CODE_LEFT, value: 1 };
            let st = event_step(m, lp, cli, ev, now_ns);
            m.left_enabled ==> {
                &&& st.state.spammer(Side::Left).click_delay_ns == (if m.fast_enabled {
                    cli.fast_click_delay_ns
                } else {
                    cli.left_click_delay_ns
                })
                &&& st.state.spammers.get(side_key(Side::Right)) == m.spammers.get(side_key(Side::Right))
            }
        }),
        ({
            let ev = InputEvent { kind: EV_KEY, code: CODE_RIGHT, value: 1 };
            let st = event_step(m, lp, cli, ev, now_ns);
            (cli.mode == Mode::Hold && m.right_enabled) ==> st.state.spammer(Side::Right).enabled
        }),
{
    assert(side_key(Side::Left) != side_key(Side::Right));
}

/// A hold-mode press that starts workers asks for them with the pressed
/// side's spammer: its quantity, and a worker of that side.
pub proof fn law_press_start_action(m: StateModel, lp: EventLoop, cli: Cli, now_ns: u64)
    requires
        m.has_both(),
        cli.mode == Mode::Hold,
        m.right_enabled,
        !m.spammer(Side::Right).enabled,
        m.spammer(Side::Right).quantity > 0,
    ensures
        ({
            let ev = InputEvent { kind: EV_KEY, code: CODE_RIGHT, value: 1 };
            let st = event_step(m, lp, cli, ev, now_ns);
            &&& st.actions.len() == 2
            &&& st.actions[1] matches Action::StartWorkers { count, worker }
            &&& count == m.spammer(Side::Right).quantity
            &&& worker.side == Side::Right
            &&& worker.key == m.spammer(Side::Right).key
            &&& worker.start_delay_ns == m.spammer(Side::Right).start_delay_ns
            &&& worker.randomize == m.spammer(Side::Right).randomize
            &&& worker.deviation_ppm == m.spammer(Side::Right).deviation_ppm
            &&& worker.counted == m.spammer(Side::Right).click_counter
        }),
{
}

/// In toggle and always mode, startup leaves the left spammer running when
/// the command line switches the left side on and the right spammer running
/// when it switches the right side on, each whatever the other flag says; a
/// side not switched on keeps its spammer as it was (but for the fast delay
/// in toggle mode). Each stopped spammer that starts asks for its quantity
/// of workers.
pub proof fn law_startup_starts_flagged(m: StateModel, cli: Cli)
    requires
        m.has_both(),
        cli.mode == Mode::Toggle || cli.mode == Mode::Always,
    ensures
        cli.enable_left ==> startup_step(m, cli).0.spammer(Side::Left).enabled,
        cli.enable_right ==> startup_step(m, cli).0.spammer(Side::Right).enabled,
        !cli.enable_right ==> startup_step(m, cli).0.spammers.get(side_key(Side::Right))
            == m.spammers.get(side_key(Side::Right)),
        !cli.enable_left ==> startup_step(m, cli).0.spammer(Side::Left).enabled == m.spammer(
            Side::Left,
        ).enabled,
        (cli.mode == Mode::Toggle && cli.enable_fast) ==> startup_step(m, cli).0.spammer(
            Side::Left,
        ).click_delay_ns == cli.fast_click_delay_ns,
        (cli.enable_left && !m.spammer(Side::Left).enabled && m.spammer(Side::Left).quantity > 0)
            ==> (startup_step(m, cli).1[0] matches Action::StartWorkers { count, worker } && count
            == m.spammer(Side::Left).quantity && worker.side == Side::Left),
        (cli.enable_left && !m.spammer(Side::Left).enabled && m.spammer(Side::Left).quantity > 0
            && cli.enable_right && !m.spammer(Side::Right).enabled && m.spammer(
            Side::Right,
        ).quantity > 0) ==> startup_step(m, cli).1.len() == 2,
        (!cli.enable_left && cli.enable_right && !m.spammer(Side::Right).enabled && m.spammer(
            Side::Right,
        ).quantity > 0) ==> ({
            &&& startup_step(m, cli).1.len() == 1
            &&& startup_step(m, cli).1[0] matches Action::StartWorkers { count, worker }
            &&& count == m.spammer(Side::Right).quantity
            &&& worker.side == Side::Right
        }),
{
    assert(side_key(Side::Left) != side_key(Side::Right));
}

/// Switching a side on in toggle mode gives the left spammer the fast delay
/// in fast mode and the left delay otherwise, and the right spammer the
/// right delay.
pub proof fn law_switch_on_delay(m: StateModel, cli: Cli, side: Side)
    requires
        cli.mode == Mode::Toggle,
        m.spammers.contains_key(side_key(side)),
        !m.side_enabled(side),
    ensures
        switch_step(m, cli, side, 1).0.spammer(side).click_delay_ns == match side {
            Side::Left => if m.fast_enabled {
                cli.fast_click_delay_ns
            } else {
                cli.left_click_delay_ns
            },
            Side::Right => cli.right_click_delay_ns,
        },
{
}

/// The middle button flips fast mode and the left spammer gets the fast
/// delay when fast mode comes on and the left delay when it goes off.
pub proof fn law_middle_sets_left_delay(m: StateModel, cli: Cli)
    requires
        m.left_enabled,
        m.spammers.contains_key(side_key(Side::Left)),
    ensures
        middle_step(m, cli, 1).spammer(Side::Left).click_delay_ns == (if m.fast_enabled {
            cli.left_click_delay_ns
        } else {
            cli.fast_click_delay_ns
        }),
        middle_step(m, cli, 1).spammer(Side::Left).enabled == m.spammer(Side::Left).enabled,
{
}

/// A wheel movement while scrolling changes the delay asks to rescale the
/// running side's current delay: divided by the factor for a movement up
/// (positive), multiplied for one down, with the movement passed on.
pub proof fn law_wheel_asks_rescale(m: StateModel, lp: EventLoop, cli: Cli, value: i32, now_ns: u64)
    requires
        m.has_both(),
        cli.scroll_changes_cps,
        m.spammer(Side::Left).enabled || m.spammer(Side::Right).enabled,
    ensures
        ({
            let ev = InputEvent { kind: EV_REL, code: REL_WHEEL, value: value };
            let st = event_step(m, lp, cli, ev, now_ns);
            let side = if m.spammer(Side::Left).enabled { Side::Left } else { Side::Right };
            &&& st.state == m
            &&& st.actions == seq![
                Action::Rescale {
                    side: side,
                    delay_ns: m.spammer(side).click_delay_ns,
                    divide: value > 0,
                    value: value,
                },
            ]
        }),
{
}

/// A scroll sets the scaled delay times the notches moved, raised to the
/// minimum delay unless fast mode clicks the left button; without movement
/// the delay is only raised to the minimum.
pub proof fn law_scroll_delay(m: StateModel, cli: Cli, side: Side, value: i32, scaled_ns: u64)
    requires
        m.spammers.contains_key(side_key(side)),
        scaled_ns * notches(value) <= u64::MAX,
    ensures
        ({
            let d = scroll_step(m, cli, side, value, scaled_ns).spammer(side).click_delay_ns;
            let moved = if value != 0 {
                scaled_ns * (if value < 0 { -value } else { value as int })
            } else {
                m.spammer(side).click_delay_ns as int
            };
            let exempt = m.fast_enabled && m.spammer(Side::Left).enabled;
            &&& (exempt || moved >= cli.minimum_delay_ns) ==> d == moved
            &&& (!exempt && moved < cli.minimum_delay_ns) ==> d == cli.minimum_delay_ns
        }),
{
}

/// The status line shows, in this order, the left switch, the right switch,
/// fast mode and the rate, each after its label, preceded by a carriage
/// return, spaces over the widest line and another carriage return.
pub proof fn law_status_text(left: bool, right: bool, fast: bool, cps: u64)
    ensures
        status_text(left, right, fast, cps) == seq!['\r'] + spaces(widest_status().len())
            + seq!['\r'] + seq!['L', 'e', 'f', 't', ':', ' '] + bool_text(left) + seq![
            ' ',
            '|',
            ' ',
            'R',
            'i',
            'g',
            'h',
            't',
            ':',
            ' ',
        ] + bool_text(right) + seq![' ', '|', ' ', 'F', 'a', 's', 't', ':', ' '] + bool_text(fast)
            + seq![' ', '|', ' ', 'c', 'p', 's', ':', ' '] + decimal(cps as nat),
        bool_text(true) == seq!['t', 'r', 'u', 'e'],
        bool_text(false) == seq!['f', 'a', 'l', 's', 'e'],
        widest_status().len() == 58,
{
    reveal_strlit("\r");
    reveal_strlit("Left: ");
    reveal_strlit(" | Right: ");
    reveal_strlit(" | Fast: ");
    reveal_strlit(" | cps: ");
    reveal_strlit("true");
    reveal_strlit("false");
    reveal_strlit("left: false | right: false | fast: false | cps: ");
    assert(status_text(left, right, fast, cps) =~= seq!['\r'] + spaces(widest_status().len())
        + seq!['\r'] + seq!['L', 'e', 'f', 't', ':', ' '] + bool_text(left) + seq![
        ' ',
        '|',
        ' ',
        'R',
        'i',
        'g',
        'h',
        't',
        ':',
        ' ',
    ] + bool_text(right) + seq![' ', '|', ' ', 'F', 'a', 's', 't', ':', ' '] + bool_text(fast)
        + seq![' ', '|', ' ', 'c', 'p', 's', ':', ' '] + decimal(cps as nat));
    assert(bool_text(true) =~= seq!['t', 'r', 'u', 'e']);
    assert(bool_text(false) =~= seq!['f', 'a', 'l', 's', 'e']);
    lemma_decimal_roundtrip(0xffff_ffff);
    assert(decimal(0xffff_ffff).len() == 10) by {
        reveal_with_fuel(decimal, 11);
    }
}

/// A worker keeps its spammer's button, start delay, randomization,
/// deviation and counting, and belongs to the side it was started for.
pub proof fn law_worker_keeps_settings(side: Side, s: Spammer)
    ensures
        worker_of(side, s).side == side,
        worker_of(side, s).key == s.key,
        worker_of(side, s).start_delay_ns == s.start_delay_ns,
        worker_of(side, s).randomize == s.randomize,
        worker_of(side, s).deviation_ppm == s.deviation_ppm,
        worker_of(side, s).counted == s.click_counter,
{
}

/// The spammers that `setup` builds click their own side's button with that
/// side's delay and start delay, stopped, counting clicks, with the command
/// line's quantity, randomization and (clamped) deviation.
pub proof fn law_configured_spammers(cli: Cli)
    ensures
        configured_spammer(cli, Side::Left).click_delay_ns == cli.left_click_delay_ns,
        configured_spammer(cli, Side::Right).click_delay_ns == cli.right_click_delay_ns,
        configured_spammer(cli, Side::Left).key == BTN_LEFT,
        configured_spammer(cli, Side::Right).key == BTN_RIGHT,
        configured_spammer(cli, Side::Left).start_delay_ns == cli.start_delay_left_ns,
        configured_spammer(cli, Side::Right).start_delay_ns == cli.start_delay_right_ns,
        !configured_spammer(cli, Side::Left).enabled,
        !configured_spammer(cli, Side::Right).enabled,
        configured_spammer(cli, Side::Left).click_counter,
        configured_spammer(cli, Side::Right).click_counter,
        configured_spammer(cli, Side::Left).quantity == cli.spammers as usize,
        configured_spammer(cli, Side::Right).quantity == cli.spammers as usize,
        configured_spammer(cli, Side::Left).randomize == cli.randomize,
        configured_spammer(cli, Side::Left).deviation_ppm <= PPM,
        cli.deviation_ppm <= PPM ==> configured_spammer(cli, Side::Left).deviation_ppm
            == cli.deviation_ppm,
{
}

/// A randomized delay may differ from the base by the deviation's share of
/// it, rounded down to whole nanoseconds: the spread times a million is at
/// most the base times the deviation in parts per million (taken at most a
/// million), and less than that plus a million. With the whole base as
/// deviation the delay may go down to zero.
pub proof fn law_spread_is_share(nanos: u64, ppm: u32)
    ensures
        ({
            let p: int = if ppm > PPM { PPM as int } else { ppm as int };
            &&& spread(nanos, ppm) * 1_000_000 <= nanos * p
            &&& nanos * p < (spread(nanos, ppm) + 1) * 1_000_000
            &&& lowest_delay(nanos, ppm) == nanos - spread(nanos, ppm)
        }),
        lowest_delay(nanos, PPM) == 0,
{
    let p: int = if ppm > PPM { PPM as int } else { ppm as int };
    let x: int = nanos * p;
    assert(x >= 0) by (nonlinear_arith)
        requires
            x == nanos * p,
            p >= 0,
    ;
    assert(spread(nanos, ppm) == x / 1_000_000);
    assert((x / 1_000_000) * 1_000_000 <= x < (x / 1_000_000 + 1) * 1_000_000) by (nonlinear_arith)
        requires
            x >= 0,
    ;
    let y: int = nanos * (PPM as int);
    assert(y / 1_000_000 == nanos) by (nonlinear_arith)
        requires
            y == nanos * 1_000_000,
    ;
}

/// A measurement spans the whole intervals that fit in one second: the
/// window's intervals together last at most a second, and one more would
/// last longer.
pub proof fn law_window_fills_a_second(update_delay_ms: u64)
    requires
        1 <= update_delay_ms <= 1000,
    ensures
        window_for(update_delay_ms) >= 1,
        window_for(update_delay_ms) * update_delay_ms <= 1000,
        1000 < (window_for(update_delay_ms) + 1) * update_delay_ms,
{
    let d = update_delay_ms as int;
    let q = 1000int / d;
    assert(window_for(update_delay_ms) == q);
    assert(q * d <= 1000 < (q + 1) * d && q >= 1) by (nonlinear_arith)
        requires
            1 <= d <= 1000,
            q == 1000int / d,
    ;
}

} // verus!
