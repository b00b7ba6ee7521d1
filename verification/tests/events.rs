use autoclicker::{
    enable_flagged, finish_scroll, handle_click, init, key_of, setup, startup, worker_for, Action,
    Cli, EventLoop, InputEvent, Mode, SharedState, Side, Spammer,
};

fn cli(mode: Mode) -> Cli {
    Cli {
        left_click_delay_ns: 50,
        right_click_delay_ns: 60,
        fast_click_delay_ns: 20,
        mode,
        disable_on_click: false,
        enable_left: true,
        enable_right: true,
        enable_fast: false,
        start_delay_left_ns: 100,
        start_delay_right_ns: 200,
        randomize: false,
        deviation_ppm: 300_000,
        scroll_changes_cps: true,
        minimum_delay_ns: 10,
        update_delay_ms: 10,
        spammers: 2,
    }
}

fn ev(kind: u16, code: u16, value: i32) -> InputEvent {
    InputEvent { kind, code, value }
}

fn start(st: &SharedState, side: Side, count: usize) -> Action {
    let sp = st.get_spammer(key_of(side)).unwrap();
    Action::StartWorkers { count, worker: worker_for(side, &sp) }
}

fn running(st: &SharedState, key: &str) -> bool {
    st.is_enabled_spammer(key).unwrap()
}

fn delay(st: &SharedState, key: &str) -> u64 {
    st.get_spammer(key).unwrap().click_delay_ns
}

#[test]
fn setup_builds_both_spammers() {
    let c = cli(Mode::Hold);
    let st = setup(&c);
    let l = st.get_spammer("left").unwrap();
    let r = st.get_spammer("right").unwrap();
    assert_eq!(l.click_delay_ns, 50);
    assert_eq!(r.click_delay_ns, 60);
    assert_eq!(l.key, (1, 272));
    assert_eq!(r.key, (1, 273));
    assert_eq!(l.start_delay_ns, 100);
    assert_eq!(r.start_delay_ns, 200);
    assert_eq!(l.quantity, 2);
    assert!(l.click_counter);
    assert!(!l.is_enabled());
}

#[test]
fn hold_press_and_release() {
    let c = cli(Mode::Hold);
    let mut st = setup(&c);
    let mut lp = EventLoop::new(0);
    let a = lp.process_event(&mut st, &c, ev(1, 272, 1), 5);
    assert_eq!(a, vec![Action::Forward(ev(1, 272, 1)), start(&st, Side::Left, 2)]);
    assert!(running(&st, "left"));
    assert_eq!(st.click_counter, 1);
    let a = lp.process_event(&mut st, &c, ev(1, 272, 0), 6);
    assert_eq!(a, vec![Action::Forward(ev(1, 272, 0))]);
    assert!(!running(&st, "left"));
    assert_eq!(st.click_counter, 1);
}

#[test]
fn hold_press_uses_fast_delay() {
    let c = cli(Mode::Hold);
    let mut st = setup(&c);
    st.fast_enabled = true;
    let mut lp = EventLoop::new(0);
    lp.process_event(&mut st, &c, ev(1, 272, 1), 5);
    assert_eq!(delay(&st, "left"), 20);
}

#[test]
fn click_ignored_when_side_off() {
    let c = cli(Mode::Hold);
    let mut st = setup(&c);
    st.right_enabled = false;
    let mut lp = EventLoop::new(0);
    let a = lp.process_event(&mut st, &c, ev(1, 273, 1), 5);
    assert_eq!(a, vec![Action::Forward(ev(1, 273, 1))]);
    assert!(!running(&st, "right"));
    assert_eq!(st.click_counter, 1);
}

#[test]
fn toggle_side_button_twice() {
    let mut c = cli(Mode::Toggle);
    c.enable_left = false;
    let mut st = setup(&c);
    let mut lp = EventLoop::new(0);
    let a = lp.process_event(&mut st, &c, ev(1, 275, 1), 5);
    assert_eq!(a, vec![start(&st, Side::Left, 2)]);
    assert!(st.left_enabled);
    assert!(running(&st, "left"));
    let a = lp.process_event(&mut st, &c, ev(1, 275, 0), 6);
    assert!(a.is_empty());
    let a = lp.process_event(&mut st, &c, ev(1, 275, 1), 7);
    assert!(a.is_empty());
    assert!(!st.left_enabled);
    assert!(!running(&st, "left"));
}

#[test]
fn extra_button_toggles_right() {
    let mut c = cli(Mode::Toggle);
    c.enable_right = false;
    let mut st = setup(&c);
    let mut lp = EventLoop::new(0);
    let a = lp.process_event(&mut st, &c, ev(1, 276, 1), 5);
    assert_eq!(a, vec![start(&st, Side::Right, 2)]);
    assert!(st.right_enabled);
    assert_eq!(delay(&st, "right"), 60);
}

#[test]
fn side_button_in_hold_mode_only_switches() {
    let c = cli(Mode::Hold);
    let mut st = setup(&c);
    let mut lp = EventLoop::new(0);
    lp.process_event(&mut st, &c, ev(1, 275, 1), 5);
    assert!(!st.left_enabled);
    let a = lp.process_event(&mut st, &c, ev(1, 275, 1), 6);
    assert!(a.is_empty());
    assert!(st.left_enabled);
    assert!(!running(&st, "left"));
}

#[test]
fn disable_on_click_in_toggle_mode() {
    let mut c = cli(Mode::Toggle);
    c.disable_on_click = true;
    let mut st = setup(&c);
    let mut lp = EventLoop::new(0);
    let _ = startup(&mut st, &c);
    assert!(running(&st, "left"));
    lp.process_event(&mut st, &c, ev(1, 272, 1), 5);
    assert!(!st.left_enabled);
    assert!(!running(&st, "left"));
}

#[test]
fn both_mode_short_press_toggles() {
    let c = cli(Mode::Both);
    let mut st = setup(&c);
    let mut lp = EventLoop::new(0);
    lp.process_event(&mut st, &c, ev(1, 272, 1), 1000);
    assert_eq!(lp.last_left_click_ns, 1000);
    assert!(running(&st, "left"));
    lp.process_event(&mut st, &c, ev(1, 272, 0), 1050);
    assert!(running(&st, "left"));
    lp.process_event(&mut st, &c, ev(1, 272, 1), 2000);
    assert!(!running(&st, "left"));
}

#[test]
fn both_mode_long_press_holds() {
    let c = cli(Mode::Both);
    let mut st = setup(&c);
    let mut lp = EventLoop::new(0);
    lp.process_event(&mut st, &c, ev(1, 272, 1), 1000);
    assert!(running(&st, "left"));
    lp.process_event(&mut st, &c, ev(1, 272, 0), 1101);
    assert!(!running(&st, "left"));
}

#[test]
fn middle_button_twice() {
    let c = cli(Mode::Toggle);
    let mut st = setup(&c);
    let mut lp = EventLoop::new(0);
    let a = lp.process_event(&mut st, &c, ev(1, 274, 1), 5);
    assert_eq!(a, vec![Action::Forward(ev(1, 274, 1))]);
    assert!(st.fast_enabled);
    assert_eq!(delay(&st, "left"), 20);
    lp.process_event(&mut st, &c, ev(1, 274, 1), 6);
    assert!(!st.fast_enabled);
    assert_eq!(delay(&st, "left"), 50);
}

#[test]
fn middle_button_ignored_when_left_off() {
    let mut c = cli(Mode::Toggle);
    c.enable_left = false;
    let mut st = setup(&c);
    let mut lp = EventLoop::new(0);
    lp.process_event(&mut st, &c, ev(1, 274, 1), 5);
    assert!(!st.fast_enabled);
}

#[test]
fn scroll_rescales_left_first() {
    let c = cli(Mode::Toggle);
    let mut st = setup(&c);
    let _ = startup(&mut st, &c);
    let mut lp = EventLoop::new(0);
    let a = lp.process_event(&mut st, &c, ev(2, 8, 2), 5);
    assert_eq!(a, vec![Action::Rescale { side: Side::Left, delay_ns: 50, divide: true, value: 2 }]);
    finish_scroll(&mut st, &c, Side::Left, 2, 45);
    assert_eq!(delay(&st, "left"), 90);
    finish_scroll(&mut st, &c, Side::Left, -1, 4);
    assert_eq!(delay(&st, "left"), 10);
    finish_scroll(&mut st, &c, Side::Left, 0, 999);
    assert_eq!(delay(&st, "left"), 10);
}

#[test]
fn scroll_minimum_ignored_in_fast_mode() {
    let mut c = cli(Mode::Toggle);
    c.enable_fast = true;
    let mut st = setup(&c);
    let _ = startup(&mut st, &c);
    finish_scroll(&mut st, &c, Side::Left, 1, 3);
    assert_eq!(delay(&st, "left"), 3);
}

#[test]
fn scroll_right_when_left_stopped() {
    let mut c = cli(Mode::Toggle);
    c.enable_left = false;
    let mut st = setup(&c);
    let _ = startup(&mut st, &c);
    let mut lp = EventLoop::new(0);
    let a = lp.process_event(&mut st, &c, ev(2, 8, -1), 5);
    assert_eq!(a, vec![Action::Rescale { side: Side::Right, delay_ns: 60, divide: false, value: -1 }]);
}

#[test]
fn high_resolution_wheel_dropped_while_scrolling() {
    let c = cli(Mode::Toggle);
    let mut st = setup(&c);
    let _ = startup(&mut st, &c);
    let mut lp = EventLoop::new(0);
    assert!(lp.process_event(&mut st, &c, ev(2, 11, 120), 5).is_empty());
    let a = lp.process_event(&mut st, &c, ev(2, 0, 3), 5);
    assert_eq!(a, vec![Action::Forward(ev(2, 0, 3))]);
}

#[test]
fn wheel_forwarded_when_not_clicking() {
    let c = cli(Mode::Hold);
    let mut st = setup(&c);
    let mut lp = EventLoop::new(0);
    let a = lp.process_event(&mut st, &c, ev(2, 8, 1), 5);
    assert_eq!(a, vec![Action::Forward(ev(2, 8, 1))]);
    let a = lp.process_event(&mut st, &c, ev(2, 11, 120), 5);
    assert_eq!(a, vec![Action::Forward(ev(2, 11, 120))]);
}

#[test]
fn other_events_forwarded() {
    let c = cli(Mode::Hold);
    let mut st = setup(&c);
    let mut lp = EventLoop::new(0);
    for e in [ev(0, 0, 0), ev(1, 30, 1), ev(4, 4, 9)] {
        let a = lp.process_event(&mut st, &c, e, 5);
        assert_eq!(a, vec![Action::Forward(e)]);
    }
    assert_eq!(st.click_counter, 0);
}

#[test]
fn startup_in_always_mode() {
    let mut c = cli(Mode::Always);
    c.enable_right = false;
    let mut st = setup(&c);
    let a = startup(&mut st, &c);
    assert_eq!(a, vec![start(&st, Side::Left, 2)]);
    assert!(running(&st, "left"));
    assert!(!running(&st, "right"));
}

#[test]
fn startup_in_toggle_mode_with_fast() {
    let mut c = cli(Mode::Toggle);
    c.enable_fast = true;
    let mut st = setup(&c);
    let a = startup(&mut st, &c);
    assert_eq!(a.len(), 2);
    assert_eq!(delay(&st, "left"), 20);
    assert!(running(&st, "right"));
}

#[test]
fn startup_in_hold_mode_does_nothing() {
    let c = cli(Mode::Hold);
    let mut st = setup(&c);
    assert!(startup(&mut st, &c).is_empty());
    assert!(!running(&st, "left"));
}

#[test]
fn flagged_spammers_start_in_any_mode() {
    let mut c = cli(Mode::Hold);
    c.enable_right = false;
    let mut st = setup(&c);
    let a = enable_flagged(&mut st, &c);
    assert_eq!(a, vec![start(&st, Side::Left, 2)]);
    assert!(running(&st, "left"));
    assert!(!running(&st, "right"));
}

#[test]
fn start_action_carries_worker_settings() {
    let c = cli(Mode::Hold);
    let mut st = setup(&c);
    let mut lp = EventLoop::new(0);
    let a = lp.process_event(&mut st, &c, ev(1, 273, 1), 5);
    match a[1] {
        Action::StartWorkers { count, worker } => {
            assert_eq!(count, 2);
            assert_eq!(worker.side, Side::Right);
            assert_eq!(worker.key, (1, 273));
            assert_eq!(worker.start_delay_ns, 200);
            assert!(worker.counted);
            assert!(!worker.randomize);
            assert_eq!(worker.deviation_ppm, 300_000);
        }
        _ => panic!("expected workers to start"),
    }
}

#[test]
fn press_counted_when_off_even_in_always_mode() {
    let mut c = cli(Mode::Always);
    c.enable_left = false;
    let mut st = init(&c);
    let mut last = 0;
    let n = handle_click(&ev(1, 272, 1), &mut st, &c, Side::Left, 50, 100, &mut last, 5);
    assert_eq!(n, 0);
    assert_eq!(st.click_counter, 1);
    let n = handle_click(&ev(1, 272, 0), &mut st, &c, Side::Left, 50, 100, &mut last, 6);
    assert_eq!(n, 0);
    assert_eq!(st.click_counter, 1);
}

#[test]
fn toggle_plain_click_needs_no_spammer() {
    let c = cli(Mode::Toggle);
    let mut st = init(&c);
    let mut last = 7;
    let n = handle_click(&ev(1, 272, 1), &mut st, &c, Side::Left, 50, 100, &mut last, 9);
    assert_eq!(n, 0);
    assert_eq!(st.click_counter, 1);
    assert!(st.left_enabled);
    assert_eq!(last, 7);
    let _ = handle_click(&ev(1, 272, 0), &mut st, &c, Side::Left, 50, 100, &mut last, 10);
    assert!(st.left_enabled);
    st.add_spammer("left", Spammer::new());
    assert_eq!(st.is_enabled_spammer("left"), Some(false));
}
