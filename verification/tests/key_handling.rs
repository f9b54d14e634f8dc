use clickr::app::{AppState, ClickMode, MouseButton};
use clickr::ui::{handle_key, handle_key_at, parse_digits, speed_step, KeyCode, UiState};

fn press(st: &mut AppState, ui: &mut UiState, code: KeyCode) -> Option<bool> {
    handle_key_at(code, st, ui, 0)
}

fn type_cps(st: &mut AppState, ui: &mut UiState, text: &str) {
    press(st, ui, KeyCode::Char('s'));
    for c in text.chars() {
        press(st, ui, KeyCode::Char(c));
    }
    press(st, ui, KeyCode::Enter);
}

#[test]
fn speed_step_bands() {
    assert_eq!(speed_step(0), 1);
    assert_eq!(speed_step(1), 1);
    assert_eq!(speed_step(10), 1);
    assert_eq!(speed_step(11), 5);
    assert_eq!(speed_step(50), 5);
    assert_eq!(speed_step(51), 10);
    assert_eq!(speed_step(200), 10);
    assert_eq!(speed_step(201), 50);
    assert_eq!(speed_step(1000), 50);
}

#[test]
fn up_key_raises_by_step_and_stops_at_1000() {
    let mut st = AppState::new();
    let mut ui = UiState::new();
    press(&mut st, &mut ui, KeyCode::Up);
    assert_eq!(st.settings.cps, 25);
    st.settings.cps = 10;
    press(&mut st, &mut ui, KeyCode::Up);
    assert_eq!(st.settings.cps, 11);
    st.settings.cps = 980;
    press(&mut st, &mut ui, KeyCode::Up);
    assert_eq!(st.settings.cps, 1000);
    press(&mut st, &mut ui, KeyCode::Up);
    assert_eq!(st.settings.cps, 1000);
}

#[test]
fn down_key_lowers_by_step_below_and_stops_at_1() {
    let mut st = AppState::new();
    let mut ui = UiState::new();
    press(&mut st, &mut ui, KeyCode::Down);
    assert_eq!(st.settings.cps, 15);
    st.settings.cps = 11;
    // step of 10 is 1
    press(&mut st, &mut ui, KeyCode::Down);
    assert_eq!(st.settings.cps, 10);
    st.settings.cps = 201;
    // step of 200 is 10
    press(&mut st, &mut ui, KeyCode::Down);
    assert_eq!(st.settings.cps, 191);
    st.settings.cps = 2;
    press(&mut st, &mut ui, KeyCode::Down);
    assert_eq!(st.settings.cps, 1);
    press(&mut st, &mut ui, KeyCode::Down);
    assert_eq!(st.settings.cps, 1);
}

#[test]
fn typed_cps_is_applied_and_clamped() {
    let mut st = AppState::new();
    let mut ui = UiState::new();
    type_cps(&mut st, &mut ui, "75");
    assert_eq!(st.settings.cps, 75);
    assert!(ui.cps_input.is_none());
    type_cps(&mut st, &mut ui, "0");
    assert_eq!(st.settings.cps, 1);
    type_cps(&mut st, &mut ui, "5000");
    assert_eq!(st.settings.cps, 1000);
}

#[test]
fn cps_entry_accepts_at_most_four_digits_and_only_digits() {
    let mut st = AppState::new();
    let mut ui = UiState::new();
    press(&mut st, &mut ui, KeyCode::Char('S'));
    assert_eq!(ui.cps_input, Some(vec![]));
    for c in ['1', 'x', '2', ' ', '3', '4', '5', 'q'] {
        press(&mut st, &mut ui, KeyCode::Char(c));
    }
    assert_eq!(ui.cps_input, Some(vec!['1', '2', '3', '4']));
    // q did not quit while typing
    assert!(!st.should_quit());
    press(&mut st, &mut ui, KeyCode::Backspace);
    assert_eq!(ui.cps_input, Some(vec!['1', '2', '3']));
    press(&mut st, &mut ui, KeyCode::Up);
    assert_eq!(st.settings.cps, 20);
    press(&mut st, &mut ui, KeyCode::Enter);
    assert_eq!(st.settings.cps, 123);
}

#[test]
fn cps_entry_escape_and_empty_enter_change_nothing() {
    let mut st = AppState::new();
    let mut ui = UiState::new();
    press(&mut st, &mut ui, KeyCode::Char('s'));
    press(&mut st, &mut ui, KeyCode::Char('9'));
    press(&mut st, &mut ui, KeyCode::Esc);
    assert!(ui.cps_input.is_none());
    assert_eq!(st.settings.cps, 20);
    assert!(!st.should_quit());
    press(&mut st, &mut ui, KeyCode::Char('s'));
    press(&mut st, &mut ui, KeyCode::Backspace);
    assert_eq!(ui.cps_input, Some(vec![]));
    press(&mut st, &mut ui, KeyCode::Enter);
    assert!(ui.cps_input.is_none());
    assert_eq!(st.settings.cps, 20);
}

#[test]
fn parse_digits_values() {
    assert_eq!(parse_digits(&vec![]), 0);
    assert_eq!(parse_digits(&vec!['0', '0', '7']), 7);
    assert_eq!(parse_digits(&vec!['9', '9', '9', '9']), 9999);
}

#[test]
fn button_mode_jitter_and_hotkey_keys() {
    let mut st = AppState::new();
    let mut ui = UiState::new();
    press(&mut st, &mut ui, KeyCode::Char('b'));
    assert_eq!(st.settings.button, MouseButton::Right);
    press(&mut st, &mut ui, KeyCode::Char('B'));
    assert_eq!(st.settings.button, MouseButton::Middle);
    press(&mut st, &mut ui, KeyCode::Char('m'));
    assert_eq!(st.settings.mode, ClickMode::DoubleClick);
    press(&mut st, &mut ui, KeyCode::Char('J'));
    assert!(st.settings.jitter_enabled);
    press(&mut st, &mut ui, KeyCode::Char('j'));
    assert!(!st.settings.jitter_enabled);
    for i in 1..=7 {
        press(&mut st, &mut ui, KeyCode::Char('h'));
        assert_eq!(st.settings.hotkey_index, i % 7);
    }
    assert_eq!(st.settings.hotkey().label, "F6");
}

#[test]
fn jitter_keys_stay_within_1_and_100() {
    let mut st = AppState::new();
    let mut ui = UiState::new();
    press(&mut st, &mut ui, KeyCode::Right);
    assert_eq!(st.settings.jitter_ms, 6);
    press(&mut st, &mut ui, KeyCode::Left);
    press(&mut st, &mut ui, KeyCode::Left);
    assert_eq!(st.settings.jitter_ms, 4);
    st.settings.jitter_ms = 1;
    press(&mut st, &mut ui, KeyCode::Left);
    assert_eq!(st.settings.jitter_ms, 1);
    st.settings.jitter_ms = 100;
    press(&mut st, &mut ui, KeyCode::Right);
    assert_eq!(st.settings.jitter_ms, 100);
}

#[test]
fn space_toggles_r_resets_q_and_esc_quit() {
    let mut st = AppState::new();
    let mut ui = UiState::new();
    assert_eq!(handle_key_at(KeyCode::Char(' '), &mut st, &mut ui, 0), Some(true));
    assert_eq!(handle_key_at(KeyCode::Char(' '), &mut st, &mut ui, 50_000_000), None);
    assert_eq!(handle_key_at(KeyCode::Char(' '), &mut st, &mut ui, 150_000_000), Some(false));
    st.increment_clicks();
    press(&mut st, &mut ui, KeyCode::Char('R'));
    assert_eq!(st.click_count(), 0);
    press(&mut st, &mut ui, KeyCode::Char('q'));
    assert!(st.should_quit());
    let mut st2 = AppState::new();
    press(&mut st2, &mut ui, KeyCode::Esc);
    assert!(st2.should_quit());
}

#[test]
fn other_keys_change_nothing() {
    let mut st = AppState::new();
    let mut ui = UiState::new();
    assert_eq!(press(&mut st, &mut ui, KeyCode::Other), None);
    assert_eq!(press(&mut st, &mut ui, KeyCode::Char('z')), None);
    assert_eq!(st.settings.cps, 20);
    assert!(!st.should_quit());
    assert!(!st.is_active());
}

#[test]
fn handle_key_reads_the_clock_for_space() {
    let mut st = AppState::new();
    let mut ui = UiState::new();
    assert_eq!(handle_key(KeyCode::Char(' '), &mut st, &mut ui), Some(true));
    let first = st.last_toggle.unwrap();
    let second = handle_key(KeyCode::Char(' '), &mut st, &mut ui);
    if st.clock_nanos() < first + 100_000_000 {
        assert_eq!(second, None);
        assert!(st.is_active());
    } else {
        assert_eq!(second.is_some(), !st.is_active());
    }
}

#[test]
fn ctrl_c_quits_in_either_mode() {
    let mut st = AppState::new();
    let mut ui = UiState::new();
    press(&mut st, &mut ui, KeyCode::Char('s'));
    press(&mut st, &mut ui, KeyCode::Char('4'));
    assert_eq!(press(&mut st, &mut ui, KeyCode::Interrupt), None);
    assert!(st.should_quit());
    assert_eq!(ui.cps_input, Some(vec!['4']));
    let mut st2 = AppState::new();
    let mut ui2 = UiState::new();
    press(&mut st2, &mut ui2, KeyCode::Interrupt);
    assert!(st2.should_quit());
}

#[test]
fn uppercase_q_quits_too() {
    let mut st = AppState::new();
    let mut ui = UiState::new();
    assert_eq!(press(&mut st, &mut ui, KeyCode::Char('Q')), None);
    assert!(st.should_quit());
}
