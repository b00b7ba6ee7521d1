use autoclicker::{checked_sum, init, measure, Cli, CpsMeter, Mode};

#[test]
fn window_sums_latest_counts() {
    let mut m = CpsMeter::new(500);
    assert_eq!(m.record(3), Some(3));
    assert_eq!(m.record(4), Some(7));
    assert_eq!(m.record(5), Some(9));
    assert_eq!(m.record(0), Some(5));
}

#[test]
fn one_millisecond_intervals_span_a_second() {
    let mut m = CpsMeter::new(1);
    let mut last = None;
    for _ in 0..1500 {
        last = m.record(1);
    }
    assert_eq!(last, Some(1000));
}

#[test]
fn steady_clicking() {
    let mut m = CpsMeter::new(10);
    let mut last = None;
    for _ in 0..250 {
        last = m.record(2);
    }
    assert_eq!(last, Some(200));
}

#[test]
fn overflowing_sum() {
    let mut m = CpsMeter::new(100);
    assert_eq!(m.record(u64::MAX), Some(u64::MAX));
    assert_eq!(m.record(1), None);
    assert_eq!(checked_sum(&vec![u64::MAX, 1]), None);
    assert_eq!(checked_sum(&vec![1, 2, 3]), Some(6));
    assert_eq!(checked_sum(&vec![]), Some(0));
}

#[test]
fn measure_takes_counter() {
    let cli = Cli {
        left_click_delay_ns: 1,
        right_click_delay_ns: 1,
        fast_click_delay_ns: 1,
        mode: Mode::Hold,
        disable_on_click: false,
        enable_left: false,
        enable_right: false,
        enable_fast: false,
        start_delay_left_ns: 0,
        start_delay_right_ns: 0,
        randomize: false,
        deviation_ppm: 0,
        scroll_changes_cps: false,
        minimum_delay_ns: 0,
        update_delay_ms: 250,
        spammers: 1,
    };
    let mut st = init(&cli);
    let mut m = CpsMeter::new(cli.update_delay_ms);
    st.count_click();
    st.count_click();
    assert_eq!(measure(&mut st, &mut m), Some(2));
    assert_eq!(st.cps, 2);
    assert_eq!(st.click_counter, 0);
    st.count_click();
    assert_eq!(measure(&mut st, &mut m), Some(3));
    assert_eq!(st.cps, 3);
}

#[test]
fn clicks_conserved_across_measurements() {
    let cli = Cli {
        left_click_delay_ns: 1,
        right_click_delay_ns: 1,
        fast_click_delay_ns: 1,
        mode: Mode::Hold,
        disable_on_click: false,
        enable_left: false,
        enable_right: false,
        enable_fast: false,
        start_delay_left_ns: 0,
        start_delay_right_ns: 0,
        randomize: false,
        deviation_ppm: 0,
        scroll_changes_cps: false,
        minimum_delay_ns: 0,
        update_delay_ms: 1000,
        spammers: 1,
    };
    let mut st = init(&cli);
    let mut m = CpsMeter::new(cli.update_delay_ms);
    let mut drained = 0u64;
    let mut clicks = 0u64;
    for round in 0..7u64 {
        for _ in 0..round {
            st.count_click();
            clicks += 1;
        }
        if round % 2 == 1 {
            drained += st.take_clicks();
        } else {
            let before = st.click_counter;
            assert_eq!(measure(&mut st, &mut m), Some(before));
            drained += before;
        }
        assert_eq!(drained + st.click_counter, clicks);
    }
}
