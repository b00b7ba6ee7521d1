use autoclicker::{
    delay_bounds, finish_click, init, next_click, worker_for, Cli, Mode, Side, Spammer, BTN_LEFT,
    BTN_RIGHT, PPM,
};

#[test]
fn new_spammer_defaults() {
    let s = Spammer::new();
    assert_eq!(s.click_delay_ns, 50_000_000);
    assert_eq!(s.key, BTN_LEFT);
    assert!(!s.randomize);
    assert_eq!(s.deviation_ppm, 300_000);
    assert_eq!(s.start_delay_ns, 100_000_000);
    assert!(!s.click_counter);
    assert_eq!(s.quantity, 1);
    assert!(!s.is_enabled());
}

#[test]
fn builders_set_fields() {
    let s = Spammer::new()
        .click_counter()
        .key(BTN_RIGHT)
        .click_delay(1234)
        .start_delay(99)
        .randomize(true)
        .deviation(500_000)
        .quantity(4);
    assert!(s.click_counter);
    assert_eq!(s.key, BTN_RIGHT);
    assert_eq!(s.click_delay_ns, 1234);
    assert_eq!(s.start_delay_ns, 99);
    assert!(s.randomize);
    assert_eq!(s.deviation_ppm, 500_000);
    assert_eq!(s.quantity, 4);
}

#[test]
fn deviation_is_clamped() {
    assert_eq!(Spammer::new().deviation(2_000_000).deviation_ppm, PPM);
    assert_eq!(Spammer::new().deviation(PPM).deviation_ppm, PPM);
    assert_eq!(Spammer::new().deviation(0).deviation_ppm, 0);
}

#[test]
fn enable_starts_workers_once() {
    let mut s = Spammer::new().quantity(3);
    assert_eq!(s.enable(), 3);
    assert!(s.is_enabled());
    assert_eq!(s.enable(), 0);
    s.disable();
    assert!(!s.is_enabled());
    assert_eq!(s.enable(), 3);
}

#[test]
fn set_click_delay_ns_sets_delay() {
    let mut s = Spammer::new();
    s.set_click_delay_ns(7);
    assert_eq!(s.click_delay_ns, 7);
}

#[test]
fn bounds_of_randomized_delay() {
    assert_eq!(delay_bounds(1000, 300_000), (700, 1300));
    assert_eq!(delay_bounds(50_000_000, 300_000), (35_000_000, 65_000_000));
    assert_eq!(delay_bounds(999, 0), (999, 999));
    assert_eq!(delay_bounds(10, 5_000_000), (0, 20));
    assert_eq!(delay_bounds(u64::MAX, PPM), (0, u64::MAX));
    assert_eq!(delay_bounds(3, 500_000), (2, 4));
}

#[test]
fn fixed_delay_without_randomization() {
    let s = Spammer::new().click_delay(42);
    let mut rng = rand::rng();
    for _ in 0..20 {
        assert_eq!(s.next_delay(&mut rng), 42);
    }
}

#[test]
fn random_delay_within_bounds_and_varies() {
    let s = Spammer::new().click_delay(1_000_000).randomize(true).deviation(PPM);
    let mut rng = rand::rng();
    let mut seen_other = false;
    for _ in 0..200 {
        let d = s.next_delay(&mut rng);
        assert!(d <= 2_000_000);
        if d != 0 {
            seen_other = true;
        }
    }
    assert!(seen_other);
}

#[test]
fn random_delay_without_deviation_is_base() {
    let s = Spammer::new().click_delay(5555).randomize(true).deviation(0);
    let mut rng = rand::rng();
    for _ in 0..20 {
        assert_eq!(s.next_delay(&mut rng), 5555);
    }
}

#[test]
fn worker_clicks_while_running() {
    let cli = Cli {
        left_click_delay_ns: 1,
        right_click_delay_ns: 1,
        fast_click_delay_ns: 1,
        mode: Mode::Hold,
        disable_on_click: false,
        enable_left: false,
        enable_right: false,
        enable_fast: false,
        start_delay_left_ns: 0,
        start_delay_right_ns: 0,
        randomize: false,
        deviation_ppm: 0,
        scroll_changes_cps: false,
        minimum_delay_ns: 0,
        update_delay_ms: 10,
        spammers: 1,
    };
    let mut st = init(&cli);
    let mut rng = rand::rng();
    let left = worker_for(Side::Left, &Spammer::new().click_delay(77).click_counter());
    assert!(next_click(&st, &left, &mut rng).is_none());
    st.add_spammer("left", Spammer::new().click_delay(77).click_counter());
    assert!(next_click(&st, &left, &mut rng).is_none());
    assert_eq!(st.enable_spammer("left"), Ok(1));
    let c = next_click(&st, &left, &mut rng).unwrap();
    assert_eq!(c.key, BTN_LEFT);
    assert_eq!(c.delay_ns, 77);
    assert!(c.counted);
    finish_click(&mut st, &c);
    assert_eq!(st.click_counter, 1);
    let right_spammer = Spammer::new().key(BTN_RIGHT);
    let right = worker_for(Side::Right, &right_spammer);
    st.add_spammer("right", right_spammer);
    st.enable_spammer("right").unwrap();
    let c = next_click(&st, &right, &mut rng).unwrap();
    assert!(!c.counted);
    finish_click(&mut st, &c);
    assert_eq!(st.click_counter, 1);
    st.disable_spammer("left").unwrap();
    assert!(next_click(&st, &left, &mut rng).is_none());
}

#[test]
fn worker_keeps_settings_from_its_start() {
    let cli = Cli {
        left_click_delay_ns: 1,
        right_click_delay_ns: 1,
        fast_click_delay_ns: 1,
        mode: Mode::Hold,
        disable_on_click: false,
        enable_left: false,
        enable_right: false,
        enable_fast: false,
        start_delay_left_ns: 0,
        start_delay_right_ns: 0,
        randomize: false,
        deviation_ppm: 0,
        scroll_changes_cps: false,
        minimum_delay_ns: 0,
        update_delay_ms: 10,
        spammers: 1,
    };
    let mut st = init(&cli);
    let mut rng = rand::rng();
    let first = Spammer::new().click_delay(10).click_counter();
    st.add_spammer("left", first);
    st.enable_spammer("left").unwrap();
    let w = worker_for(Side::Left, &first);
    let mut replaced = Spammer::new().key(BTN_RIGHT).click_delay(20).randomize(true).deviation(PPM);
    replaced.enable();
    st.add_spammer("left", replaced);
    for _ in 0..20 {
        let c = next_click(&st, &w, &mut rng).unwrap();
        assert_eq!(c.key, BTN_LEFT);
        assert!(c.counted);
        assert_eq!(c.delay_ns, 20);
    }
}

#[test]
fn each_completed_click_counts_once() {
    let cli = Cli {
        left_click_delay_ns: 1,
        right_click_delay_ns: 1,
        fast_click_delay_ns: 1,
        mode: Mode::Hold,
        disable_on_click: false,
        enable_left: false,
        enable_right: false,
        enable_fast: false,
        start_delay_left_ns: 0,
        start_delay_right_ns: 0,
        randomize: false,
        deviation_ppm: 0,
        scroll_changes_cps: false,
        minimum_delay_ns: 0,
        update_delay_ms: 10,
        spammers: 1,
    };
    let mut st = init(&cli);
    let mut rng = rand::rng();
    let counting = Spammer::new().click_counter();
    st.add_spammer("left", counting);
    st.enable_spammer("left").unwrap();
    let w = worker_for(Side::Left, &counting);
    for i in 1..=5u64 {
        let c = next_click(&st, &w, &mut rng).unwrap();
        finish_click(&mut st, &c);
        assert_eq!(st.click_counter, i);
    }
}
