use clickr::app::AppState;
use clickr::hotkey::{
    is_control, is_hotkey_press, sanitize_name, KeyEvent, ListenStep, Listener, PollOutcome,
};

#[test]
fn missing_name_is_unknown() {
    assert_eq!(sanitize_name(None), "unknown");
}

#[test]
fn control_characters_are_stripped() {
    assert_eq!(sanitize_name(Some("AT\u{1b}[31m Keyboard\n")), "AT[31m Keyboard");
    assert_eq!(sanitize_name(Some("a\u{7f}b\u{9f}c\u{a0}")), "abc\u{a0}");
    assert!(is_control('\u{0}'));
    assert!(is_control('\u{85}'));
    assert!(!is_control(' '));
    assert!(!is_control('é'));
}

#[test]
fn long_names_are_cut_to_64_characters() {
    let long: String = "é".repeat(100);
    let shown = sanitize_name(Some(&long));
    assert_eq!(shown.chars().count(), 64);
    let mixed: String = "\u{7}x".repeat(70);
    assert_eq!(sanitize_name(Some(&mixed)), "x".repeat(64));
    assert_eq!(sanitize_name(Some("Logitech USB Keyboard")), "Logitech USB Keyboard");
}

fn ev(is_key: bool, code: u16, value: i32) -> KeyEvent {
    KeyEvent { is_key, code, value }
}

#[test]
fn only_presses_of_the_hotkey_count() {
    assert!(is_hotkey_press(&ev(true, 64, 1), 64));
    assert!(!is_hotkey_press(&ev(true, 64, 0), 64));
    assert!(!is_hotkey_press(&ev(true, 64, 2), 64));
    assert!(!is_hotkey_press(&ev(true, 65, 1), 64));
    assert!(!is_hotkey_press(&ev(false, 64, 1), 64));
}

#[test]
fn hotkey_events_toggle_once_per_burst() {
    let mut st = AppState::new();
    let events = vec![ev(true, 64, 1), ev(true, 64, 0), ev(true, 64, 1), ev(false, 0, 0)];
    let notes = st.handle_hotkey_events(&events);
    if notes.len() == 1 {
        assert_eq!(notes, vec![true]);
        assert!(st.is_active());
    } else {
        // only if the second press was handled 100 ms or more after the first
        assert_eq!(notes, vec![true, false]);
        assert!(st.clock_nanos() >= 100_000_000);
        assert!(!st.is_active());
    }
}

#[test]
fn other_keys_do_not_toggle() {
    let mut st = AppState::new();
    st.settings.hotkey_index = 6;
    let events = vec![ev(true, 64, 1), ev(true, 88, 0)];
    assert!(st.handle_hotkey_events(&events).is_empty());
    assert!(!st.is_active());
    assert_eq!(st.last_toggle, None);
    let notes = st.handle_hotkey_events(&vec![ev(true, 88, 1)]);
    assert_eq!(notes, vec![true]);
}

#[test]
fn listener_waits_fetches_and_ends_on_broken_device() {
    let mut l = Listener::new();
    assert_eq!(l.on_poll(PollOutcome::TimedOut), ListenStep::Continue);
    assert_eq!(l.on_poll(PollOutcome::NoEvents), ListenStep::Continue);
    assert_eq!(l.on_poll(PollOutcome::Events { broken: false, readable: false }), ListenStep::Continue);
    assert_eq!(l.on_poll(PollOutcome::Events { broken: false, readable: true }), ListenStep::Fetch);
    assert_eq!(l.on_poll(PollOutcome::Events { broken: true, readable: true }), ListenStep::End);
}

#[test]
fn listener_gives_up_after_50_consecutive_errors() {
    let mut l = Listener::new();
    for _ in 0..30 {
        assert_eq!(l.on_poll(PollOutcome::Failed), ListenStep::Continue);
    }
    for _ in 0..19 {
        assert_eq!(l.on_fetch(false), ListenStep::Continue);
    }
    assert_eq!(l.consecutive_errors, 49);
    assert_eq!(l.on_poll(PollOutcome::Failed), ListenStep::End);
}

#[test]
fn successful_read_clears_the_error_count() {
    let mut l = Listener::new();
    for _ in 0..49 {
        l.on_poll(PollOutcome::Failed);
    }
    assert_eq!(l.on_fetch(true), ListenStep::Continue);
    assert_eq!(l.consecutive_errors, 0);
    for _ in 0..49 {
        assert_eq!(l.on_fetch(false), ListenStep::Continue);
    }
    assert_eq!(l.on_fetch(false), ListenStep::End);
}

#[test]
fn listener_ends_when_quitting() {
    let l = Listener::new();
    assert_eq!(l.before_poll(false), ListenStep::Continue);
    assert_eq!(l.before_poll(true), ListenStep::End);
}
