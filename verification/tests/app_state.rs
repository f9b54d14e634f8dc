use clickr::app::{
    hotkey_option, AppState, ClickMode, MouseButton, Settings, HOTKEY_COUNT, TOGGLE_DEBOUNCE_NANOS,
};

#[test]
fn mouse_button_cycles_left_right_middle() {
    assert_eq!(MouseButton::Left.next(), MouseButton::Right);
    assert_eq!(MouseButton::Right.next(), MouseButton::Middle);
    assert_eq!(MouseButton::Middle.next(), MouseButton::Left);
    for b in [MouseButton::Left, MouseButton::Right, MouseButton::Middle] {
        assert_eq!(b.next().next().next(), b);
        assert_ne!(b.next(), b);
    }
}

#[test]
fn mouse_button_labels() {
    assert_eq!(MouseButton::Left.label(), "Left");
    assert_eq!(MouseButton::Right.label(), "Right");
    assert_eq!(MouseButton::Middle.label(), "Middle");
}

#[test]
fn click_mode_cycles_click_double_hold() {
    assert_eq!(ClickMode::Click.next(), ClickMode::DoubleClick);
    assert_eq!(ClickMode::DoubleClick.next(), ClickMode::Hold);
    assert_eq!(ClickMode::Hold.next(), ClickMode::Click);
    for m in [ClickMode::Click, ClickMode::DoubleClick, ClickMode::Hold] {
        assert_eq!(m.next().next().next(), m);
    }
}

#[test]
fn click_mode_labels() {
    assert_eq!(ClickMode::Click.label(), "Click");
    assert_eq!(ClickMode::DoubleClick.label(), "Double");
    assert_eq!(ClickMode::Hold.label(), "Hold");
}

#[test]
fn hotkey_table_is_f6_to_f12() {
    let expected = [
        (64u16, "F6"),
        (65, "F7"),
        (66, "F8"),
        (67, "F9"),
        (68, "F10"),
        (87, "F11"),
        (88, "F12"),
    ];
    assert_eq!(HOTKEY_COUNT, expected.len());
    for (i, (code, label)) in expected.iter().enumerate() {
        let h = hotkey_option(i);
        assert_eq!(h.code, *code);
        assert_eq!(h.label, *label);
    }
}

#[test]
fn default_settings() {
    let s = Settings::default();
    assert_eq!(s.cps, 20);
    assert_eq!(s.button, MouseButton::Left);
    assert_eq!(s.mode, ClickMode::Click);
    assert!(!s.jitter_enabled);
    assert_eq!(s.jitter_ms, 5);
    assert_eq!(s.hotkey_index, 0);
    assert_eq!(s.hotkey().label, "F6");
    assert_eq!(s.hotkey().code, 64);
}

#[test]
fn interval_is_thousand_over_cps_milliseconds() {
    let mut s = Settings::default();
    assert_eq!(s.interval_micros(), 50_000);
    s.cps = 1;
    assert_eq!(s.interval_micros(), 1_000_000);
    s.cps = 3;
    assert_eq!(s.interval_micros(), 333_333);
    s.cps = 1000;
    assert_eq!(s.interval_micros(), 1_000);
}

#[test]
fn new_state_is_idle() {
    let st = AppState::new();
    assert!(!st.is_active());
    assert_eq!(st.click_count(), 0);
    assert!(!st.should_quit());
    assert_eq!(st.last_toggle, None);
    assert_eq!(st.settings.cps, 20);
}

#[test]
fn first_toggle_is_always_accepted() {
    let mut st = AppState::new();
    assert_eq!(st.toggle_at(0), Some(true));
    assert!(st.is_active());
    assert_eq!(st.last_toggle, Some(0));
}

#[test]
fn toggle_within_debounce_is_ignored() {
    let mut st = AppState::new();
    assert_eq!(st.toggle_at(1_000_000_000), Some(true));
    assert_eq!(st.toggle_at(1_000_000_000 + TOGGLE_DEBOUNCE_NANOS - 1), None);
    assert!(st.is_active());
    assert_eq!(st.last_toggle, Some(1_000_000_000));
    // exactly 100 ms later is accepted
    assert_eq!(st.toggle_at(1_000_000_000 + TOGGLE_DEBOUNCE_NANOS), Some(false));
    assert!(!st.is_active());
}

#[test]
fn toggle_with_earlier_reading_counts_as_no_time() {
    let mut st = AppState::new();
    assert_eq!(st.toggle_at(5_000_000_000), Some(true));
    assert_eq!(st.toggle_at(1_000_000_000), None);
    assert!(st.is_active());
}

#[test]
fn two_accepted_toggles_restore_activity() {
    let mut st = AppState::new();
    assert_eq!(st.toggle_at(0), Some(true));
    assert_eq!(st.toggle_at(200_000_000), Some(false));
    assert!(!st.is_active());
}

#[test]
fn real_clock_debounces_back_to_back_toggles() {
    let mut st = AppState::new();
    assert_eq!(st.toggle(), Some(true));
    let first = st.last_toggle.unwrap();
    let second = st.toggle();
    let after = st.clock_nanos();
    // the second call reads the clock no later than `after`
    if after < first + TOGGLE_DEBOUNCE_NANOS {
        assert_eq!(second, None);
        assert!(st.is_active());
    } else {
        assert!(second.is_none() || second == Some(false));
    }
    assert!(st.last_toggle.is_some());
}

#[test]
fn real_clock_accepts_toggle_after_debounce() {
    let mut st = AppState::new();
    assert_eq!(st.toggle(), Some(true));
    let start = std::time::Instant::now();
    while start.elapsed() < std::time::Duration::from_millis(150) {}
    assert_eq!(st.toggle(), Some(false));
    assert!(!st.is_active());
    assert!(st.clock_nanos() >= 150_000_000);
}

#[test]
fn force_deactivate_skips_debounce() {
    let mut st = AppState::new();
    assert_eq!(st.toggle_at(10), Some(true));
    st.force_deactivate();
    assert!(!st.is_active());
    assert_eq!(st.last_toggle, Some(10));
    st.force_deactivate();
    assert!(!st.is_active());
}

#[test]
fn click_counter_counts_resets_and_wraps() {
    let mut st = AppState::new();
    st.increment_clicks();
    st.increment_clicks();
    assert_eq!(st.click_count(), 2);
    st.reset_clicks();
    assert_eq!(st.click_count(), 0);
    st.click_count = u64::MAX;
    st.increment_clicks();
    assert_eq!(st.click_count(), 0);
}

#[test]
fn quit_sets_flag_only() {
    let mut st = AppState::new();
    st.toggle_at(0);
    st.quit();
    assert!(st.should_quit());
    assert!(st.is_active());
}

#[test]
fn ignored_toggle_does_not_extend_the_window() {
    let mut st = AppState::new();
    assert_eq!(st.toggle_at(0), Some(true));
    assert_eq!(st.toggle_at(60_000_000), None);
    assert_eq!(st.toggle_at(120_000_000), Some(false));
    assert!(!st.is_active());
}

#[test]
fn many_clicks_add_up_and_quit_stays() {
    let mut st = AppState::new();
    st.click_count = u64::MAX - 2;
    for _ in 0..5 {
        st.increment_clicks();
    }
    assert_eq!(st.click_count(), 2);
    st.quit();
    st.toggle_at(0);
    st.force_deactivate();
    st.reset_clicks();
    st.quit();
    assert!(st.should_quit());
}
