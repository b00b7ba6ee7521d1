use autoclicker::{init, ClickMode, Cli, Mode, SharedState, Spammer, SPAMMER_NOT_FOUND};

fn cli() -> Cli {
    Cli {
        left_click_delay_ns: 50_000_000,
        right_click_delay_ns: 60_000_000,
        fast_click_delay_ns: 20_000_000,
        mode: Mode::Hold,
        disable_on_click: false,
        enable_left: true,
        enable_right: false,
        enable_fast: true,
        start_delay_left_ns: 100_000_000,
        start_delay_right_ns: 100_000_000,
        randomize: false,
        deviation_ppm: 300_000,
        scroll_changes_cps: false,
        minimum_delay_ns: 0,
        update_delay_ms: 10,
        spammers: 1,
    }
}

fn state_with(key: &str, s: Spammer) -> SharedState {
    let mut st = init(&cli());
    st.add_spammer(key, s);
    st
}

#[test]
fn init_takes_switches_from_cli() {
    let st = init(&cli());
    assert!(st.left_enabled);
    assert!(!st.right_enabled);
    assert!(st.fast_enabled);
    assert_eq!(st.click_counter, 0);
    assert_eq!(st.cps, 0);
    assert!(st.get_spammer("left").is_none());
    let _ = ClickMode::Cps;
}

#[test]
fn added_spammer_is_found() {
    let st = state_with("left", Spammer::new().click_delay(77));
    assert_eq!(st.get_spammer("left").map(|s| s.click_delay_ns), Some(77));
    assert!(st.get_spammer("right").is_none());
    assert_eq!(st.is_enabled_spammer("left"), Some(false));
    assert_eq!(st.is_enabled_spammer("lef"), None);
}

#[test]
fn adding_again_replaces() {
    let mut st = state_with("left", Spammer::new().click_delay(1));
    st.add_spammer("right", Spammer::new().click_delay(2));
    st.add_spammer("left", Spammer::new().click_delay(3));
    assert_eq!(st.get_spammer("left").map(|s| s.click_delay_ns), Some(3));
    assert_eq!(st.get_spammer("right").map(|s| s.click_delay_ns), Some(2));
}

#[test]
fn enable_reports_workers_then_none() {
    let mut st = state_with("left", Spammer::new().quantity(2));
    assert_eq!(st.enable_spammer("left"), Ok(2));
    assert_eq!(st.is_enabled_spammer("left"), Some(true));
    assert_eq!(st.enable_spammer("left"), Ok(0));
}

#[test]
fn disable_stops() {
    let mut st = state_with("left", Spammer::new());
    assert_eq!(st.enable_spammer("left"), Ok(1));
    assert_eq!(st.disable_spammer("left"), Ok(()));
    assert_eq!(st.is_enabled_spammer("left"), Some(false));
}

#[test]
fn toggle_twice_restores() {
    let mut st = state_with("left", Spammer::new());
    assert_eq!(st.toggle_spammer("left"), Some(true));
    assert_eq!(st.is_enabled_spammer("left"), Some(true));
    assert_eq!(st.toggle_spammer("left"), Some(false));
    assert_eq!(st.is_enabled_spammer("left"), Some(false));
}

#[test]
fn missing_spammer_errors() {
    let mut st = state_with("left", Spammer::new());
    assert_eq!(st.enable_spammer("right"), Err(SPAMMER_NOT_FOUND));
    assert_eq!(st.disable_spammer("right"), Err(SPAMMER_NOT_FOUND));
    assert_eq!(st.set_spammer_delay("right", 5), Err(SPAMMER_NOT_FOUND));
    assert_eq!(st.toggle_spammer("right"), None);
    assert_eq!(SPAMMER_NOT_FOUND, "Spammer not found");
    assert_eq!(st.is_enabled_spammer("left"), Some(false));
}

#[test]
fn set_delay_of_spammer() {
    let mut st = state_with("right", Spammer::new());
    assert_eq!(st.set_spammer_delay("right", 5), Ok(()));
    assert_eq!(st.get_spammer("right").map(|s| s.click_delay_ns), Some(5));
}

#[test]
fn counting_and_taking_clicks() {
    let mut st = init(&cli());
    st.count_click();
    st.count_click();
    assert_eq!(st.click_counter, 2);
    assert_eq!(st.take_clicks(), 2);
    assert_eq!(st.click_counter, 0);
    st.click_counter = u64::MAX;
    st.count_click();
    assert_eq!(st.click_counter, 0);
}
