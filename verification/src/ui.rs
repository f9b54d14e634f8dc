//! What the keys of the terminal interface do to the settings and the state.

use vstd::prelude::*;

use crate::app::{
    button_after, mode_after, AppState, Settings, HOTKEY_COUNT, MAX_CPS, MAX_JITTER_MS, MIN_CPS,
    MIN_JITTER_MS,
};
use crate::clock::MAX_DURATION_NANOS;

verus! {

/// A key press, as the interface distinguishes them.
#[derive(Debug, Clone, Copy, PartialEq, Eq, Structural)]
pub enum KeyCode {
    Char(char),
    Enter,
    Esc,
    Backspace,
    Up,
    Down,
    Left,
    Right,
    /// Ctrl+C: raw mode swallows SIGINT, so it arrives as a key.
    Interrupt,
    Other,
}

/// Most digits the CPS entry field accepts.
pub const MAX_CPS_DIGITS: usize = 4;

/// Interface-only state: `Some(digits)` while the user types a CPS value.
pub struct UiState {
    pub cps_input: Option<Vec<char>>,
}

pub open spec fn is_digit(c: char) -> bool {
    '0' <= c <= '9'
}

/// Decimal value of a string of digits.
pub open spec fn digits_value(s: Seq<char>) -> nat
    decreases s.len(),
{
    if s.len() == 0 {
        0
    } else {
        digits_value(s.drop_last()) * 10 + ((s.last() as int - '0' as int) as nat)
    }
}

/// `v` limited to `lo ..= hi`.
pub open spec fn clamp_int(v: int, lo: int, hi: int) -> int {
    if v < lo {
        lo
    } else if v > hi {
        hi
    } else {
        v
    }
}

impl UiState {
    /// The entry field's contents, if it is open.
    pub open spec fn input(&self) -> Option<Seq<char>> {
        match self.cps_input {
            Some(b) => Some(b@),
            None => None,
        }
    }

    /// The entry field holds at most four digits.
    pub open spec fn wf(&self) -> bool {
        match self.input() {
            Some(b) => b.len() <= MAX_CPS_DIGITS && forall|i: int| 0 <= i < b.len() ==> is_digit(#[trigger] b[i]),
            None => true,
        }
    }

    /// Normal mode: the entry field is closed.
    pub fn new() -> (r: Self)
        ensures
            r.input().is_none(),
            r.wf(),
    {
        UiState { cps_input: None }
    }
}

/// Step for the Up and Down keys: bigger jumps at higher speeds.
pub open spec fn step_for(cps: u32) -> u32 {
    if cps <= 10 {
        1
    } else if cps <= 50 {
        5
    } else if cps <= 200 {
        10
    } else {
        50
    }
}

/// Adaptive speed step: bigger jumps at higher CPS values.
pub fn speed_step(cps: u32) -> (r: u32)
    ensures
        r == step_for(cps),
{
    if cps <= 10 {
        1
    } else if cps <= 50 {
        5
    } else if cps <= 200 {
        10
    } else {
        50
    }
}

/// Speed after the Up key.
pub open spec fn cps_up(cps: u32) -> u32 {
    if cps < MAX_CPS {
        if cps + step_for(cps) < MAX_CPS {
            (cps + step_for(cps)) as u32
        } else {
            MAX_CPS
        }
    } else {
        cps
    }
}

/// Speed after the Down key.
pub open spec fn cps_down(cps: u32) -> u32 {
    if cps > MIN_CPS {
        let lowered = cps - step_for((cps - 1) as u32);
        if lowered > MIN_CPS {
            lowered as u32
        } else {
            MIN_CPS
        }
    } else {
        cps
    }
}

/// What a key does to the settings in normal mode (keys that touch other
/// things leave them as they are).
pub open spec fn settings_after_key(s: Settings, code: KeyCode) -> Settings {
    match code {
        KeyCode::Up => Settings { cps: cps_up(s.cps), ..s },
        KeyCode::Down => Settings { cps: cps_down(s.cps), ..s },
        KeyCode::Char(c) => {
            if c == 'b' || c == 'B' {
                Settings { button: button_after(s.button), ..s }
            } else if c == 'm' || c == 'M' {
                Settings { mode: mode_after(s.mode), ..s }
            } else if c == 'j' || c == 'J' {
                Settings { jitter_enabled: !s.jitter_enabled, ..s }
            } else if c == 'h' || c == 'H' {
                Settings { hotkey_index: ((s.hotkey_index + 1) % (HOTKEY_COUNT as int)) as usize, ..s }
            } else {
                s
            }
        },
        KeyCode::Right => Settings {
            jitter_ms: if s.jitter_ms < MAX_JITTER_MS {
                (s.jitter_ms + 1) as u32
            } else {
                s.jitter_ms
            },
            ..s
        },
        KeyCode::Left => Settings {
            jitter_ms: if s.jitter_ms > MIN_JITTER_MS {
                (s.jitter_ms - 1) as u32
            } else {
                s.jitter_ms
            },
            ..s
        },
        _ => s,
    }
}

/// A key typed while the CPS entry field holding `buf` is open: Enter
/// applies a non-empty entry (limited to 1 ..= 1000) and closes the field,
/// Esc closes it, Backspace deletes the last digit, a digit is appended while
/// there are fewer than four; anything else is ignored.
pub open spec fn editing_post(
    code: KeyCode,
    buf: Seq<char>,
    pre: AppState,
    post: AppState,
    post_input: Option<Seq<char>>,
    r: Option<bool>,
) -> bool {
    &&& r.is_none()
    &&& match code {
        KeyCode::Enter => {
            &&& post_input.is_none()
            &&& post == (if buf.len() > 0 {
                AppState {
                    settings: Settings {
                        cps: clamp_int(digits_value(buf) as int, MIN_CPS as int, MAX_CPS as int) as u32,
                        ..pre.settings
                    },
                    ..pre
                }
            } else {
                pre
            })
        },
        KeyCode::Esc => post_input.is_none() && post == pre,
        KeyCode::Backspace => post == pre && post_input == Some(
            if buf.len() > 0 {
                buf.drop_last()
            } else {
                buf
            },
        ),
        KeyCode::Char(c) => post == pre && post_input == Some(
            if is_digit(c) && buf.len() < MAX_CPS_DIGITS {
                buf.push(c)
            } else {
                buf
            },
        ),
        _ => post == pre && post_input == Some(buf),
    }
}

/// A key typed in normal mode: q, Q or Esc quits, Space toggles (with the
/// debounce, at clock reading `now`), r resets the counter, s opens the CPS
/// entry field, the other keys change settings as `settings_after_key` says.
pub open spec fn normal_post(
    code: KeyCode,
    pre: AppState,
    now: u128,
    post: AppState,
    post_input: Option<Seq<char>>,
    r: Option<bool>,
) -> bool {
    if code == KeyCode::Char('q') || code == KeyCode::Char('Q') || code == KeyCode::Esc {
        post == AppState { should_quit: true, ..pre } && post_input.is_none() && r.is_none()
    } else if code == KeyCode::Char(' ') {
        AppState::toggle_post(pre, now, post, r) && post_input.is_none()
    } else if code == KeyCode::Char('r') || code == KeyCode::Char('R') {
        post == AppState { click_count: 0, ..pre } && post_input.is_none() && r.is_none()
    } else if code == KeyCode::Char('s') || code == KeyCode::Char('S') {
        post == pre && post_input == Some(Seq::<char>::empty()) && r.is_none()
    } else {
        post == AppState { settings: settings_after_key(pre.settings, code), ..pre }
            && post_input.is_none() && r.is_none()
    }
}

/// Whether `code` advances the hotkey: H in normal mode.
pub open spec fn advances_hotkey(code: KeyCode, input: Option<Seq<char>>) -> bool {
    input.is_none() && (code == KeyCode::Char('h') || code == KeyCode::Char('H'))
}

/// The effect of one key on the state and the interface: Ctrl+C quits in
/// either mode; other keys act as `editing_post` or `normal_post` say.
pub open spec fn key_post(
    code: KeyCode,
    pre: AppState,
    pre_input: Option<Seq<char>>,
    now: u128,
    post: AppState,
    post_input: Option<Seq<char>>,
    r: Option<bool>,
) -> bool {
    if code == KeyCode::Interrupt {
        post == AppState { should_quit: true, ..pre } && post_input == pre_input && r.is_none()
    } else {
        match pre_input {
            Some(buf) => editing_post(code, buf, pre, post, post_input, r),
            None => normal_post(code, pre, now, post, post_input, r),
        }
    }
}

/// Largest value of `n` decimal digits.
pub open spec fn digits_bound(n: nat) -> int
    decreases n,
{
    if n == 0 {
        0
    } else {
        digits_bound((n - 1) as nat) * 10 + 9
    }
}

/// Value of the digits typed into the CPS entry field.
pub fn parse_digits(buf: &Vec<char>) -> (r: u32)
    requires
        buf@.len() <= MAX_CPS_DIGITS,
        forall|i: int| 0 <= i < buf@.len() ==> is_digit(#[trigger] buf@[i]),
    ensures
        r as int == digits_value(buf@),
{
    let mut value: u32 = 0;
    let mut i: usize = 0;
    while i < buf.len()
        invariant
            i <= buf@.len() <= MAX_CPS_DIGITS,
            forall|k: int| 0 <= k < buf@.len() ==> is_digit(#[trigger] buf@[k]),
            value as int == digits_value(buf@.take(i as int)),
            value <= digits_bound(i as nat),
        decreases buf@.len() - i,
    {
        proof {
            reveal_with_fuel(digits_bound, 5);
        }
        let c = buf[i];
        assert(is_digit(buf@[i as int]));
        let d: u32 = (c as u32) - ('0' as u32);
        assert(buf@.take(i + 1).drop_last() =~= buf@.take(i as int));
        value = value * 10 + d;
        i = i + 1;
    }
    assert(buf@.take(buf@.len() as int) =~= buf@);
    value
}

/// What one key press does, at clock reading `now` for the Space toggle.
/// Returns the new activity when a toggle was accepted (to be reported), else
/// `None`. The settings stay within their ranges and the entry field keeps
/// at most four digits.
pub fn handle_key_at(code: KeyCode, state: &mut AppState, ui: &mut UiState, now: u128) -> (r:
    Option<bool>)
    requires
        old(ui).wf(),
        advances_hotkey(code, old(ui).input()) ==> old(state).settings.hotkey_index < usize::MAX,
    ensures
        key_post(code, *old(state), old(ui).input(), now, *final(state), final(ui).input(), r),
        final(ui).wf(),
        old(state).settings.wf() ==> final(state).settings.wf(),
{
    if code == KeyCode::Interrupt {
        state.quit();
        return None;
    }
    // CPS input mode
    if ui.cps_input.is_some() {
        let taken = ui.cps_input.take();
        let mut buf = match taken {
            Some(b) => b,
            None => Vec::new(),
        };
        match code {
            KeyCode::Enter => {
                if buf.len() > 0 {
                    let val = parse_digits(&buf);
                    let clamped = if val < MIN_CPS {
                        MIN_CPS
                    } else if val > MAX_CPS {
                        MAX_CPS
                    } else {
                        val
                    };
                    state.settings.cps = clamped;
                }
            },
            KeyCode::Esc => {},
            KeyCode::Backspace => {
                let ghost before = buf@;
                if buf.len() > 0 {
                    buf.pop();
                }
                assert(buf@.len() > 0 ==> buf@ == before.drop_last());
                ui.cps_input = Some(buf);
                assert forall|i: int| 0 <= i < buf@.len() implies is_digit(#[trigger] buf@[i]) by {
                    assert(buf@[i] == before[i]);
                }
            },
            KeyCode::Char(c) => {
                if '0' <= c && c <= '9' && buf.len() < MAX_CPS_DIGITS {
                    buf.push(c);
                }
                ui.cps_input = Some(buf);
            },
            _ => {
                ui.cps_input = Some(buf);
            },
        }
        return None;
    }
    // Normal mode

    match code {
        KeyCode::Char('q') | KeyCode::Char('Q') | KeyCode::Esc => {
            state.quit();
            None
        },
        KeyCode::Char(' ') => state.toggle_at(now),
        KeyCode::Char('r') | KeyCode::Char('R') => {
            state.reset_clicks();
            None
        },
        KeyCode::Char('s') | KeyCode::Char('S') => {
            ui.cps_input = Some(Vec::new());
            None
        },
        KeyCode::Up => {
            let cps = state.settings.cps;
            if cps < MAX_CPS {
                let raised = cps + speed_step(cps);
                state.settings.cps = if raised < MAX_CPS {
                    raised
                } else {
                    MAX_CPS
                };
            }
            None
        },
        KeyCode::Down => {
            let cps = state.settings.cps;
            if cps > MIN_CPS {
                let lowered = cps.saturating_sub(speed_step(cps.saturating_sub(1)));
                state.settings.cps = if lowered > MIN_CPS {
                    lowered
                } else {
                    MIN_CPS
                };
            }
            None
        },
        KeyCode::Char('b') | KeyCode::Char('B') => {
            state.settings.button = state.settings.button.next();
            None
        },
        KeyCode::Char('m') | KeyCode::Char('M') => {
            state.settings.mode = state.settings.mode.next();
            None
        },
        KeyCode::Char('j') | KeyCode::Char('J') => {
            state.settings.jitter_enabled = !state.settings.jitter_enabled;
            None
        },
        KeyCode::Char('h') | KeyCode::Char('H') => {
            state.settings.hotkey_index = (state.settings.hotkey_index + 1) % HOTKEY_COUNT;
            None
        },
        KeyCode::Right => {
            if state.settings.jitter_ms < MAX_JITTER_MS {
                state.settings.jitter_ms = state.settings.jitter_ms + 1;
            }
            None
        },
        KeyCode::Left => {
            if state.settings.jitter_ms > MIN_JITTER_MS {
                state.settings.jitter_ms = state.settings.jitter_ms - 1;
            }
            None
        },
        _ => None,
    }
}

/// What one key press does now; see `handle_key_at`.
pub fn handle_key(code: KeyCode, state: &mut AppState, ui: &mut UiState) -> (r: Option<bool>)
    requires
        old(ui).wf(),
        advances_hotkey(code, old(ui).input()) ==> old(state).settings.hotkey_index < usize::MAX,
    ensures
        exists|now: u128|
            now <= MAX_DURATION_NANOS && #[trigger] key_post(
                code,
                *old(state),
                old(ui).input(),
                now,
                *final(state),
                final(ui).input(),
                r,
            ),
        final(ui).wf(),
        old(state).settings.wf() ==> final(state).settings.wf(),
{
    let now = state.clock_nanos();
    handle_key_at(code, state, ui, now)
}


/// Up raises the speed by its step, never past 1000, and changes it unless it
/// is already 1000; Down lowers it, never below 1, and changes it unless it
/// is already 1. Both keep a speed in 1 ..= 1000 there.
pub proof fn lemma_speed_keys(cps: u32)
    requires
        MIN_CPS <= cps <= MAX_CPS,
    ensures
        MIN_CPS <= cps_up(cps) <= MAX_CPS,
        cps < MAX_CPS ==> cps < cps_up(cps) <= cps + step_for(cps),
        cps == MAX_CPS ==> cps_up(cps) == cps,
        MIN_CPS <= cps_down(cps) <= MAX_CPS,
        cps > MIN_CPS ==> cps_down(cps) < cps,
        cps == MIN_CPS ==> cps_down(cps) == cps,
{
}

/// The settings after the H key.
pub open spec fn after_h(s: Settings) -> Settings {
    settings_after_key(s, KeyCode::Char('h'))
}

/// H cycles through the seven hotkeys: seven presses bring back the same one.
pub proof fn lemma_hotkey_cycle(s: Settings)
    requires
        s.hotkey_index < HOTKEY_COUNT,
    ensures
        settings_after_key(s, KeyCode::Char('h')).hotkey_index < HOTKEY_COUNT,
        after_h(after_h(after_h(after_h(after_h(after_h(after_h(s))))))) == s,
{
}

/// An entered speed is applied within 1 ..= 1000 whatever was typed.
pub proof fn lemma_entered_speed_in_range(buf: Seq<char>, pre: AppState, post: AppState, post_input: Option<Seq<char>>, r: Option<bool>)
    requires
        editing_post(KeyCode::Enter, buf, pre, post, post_input, r),
    ensures
        buf.len() > 0 ==> MIN_CPS <= post.settings.cps <= MAX_CPS,
        buf.len() == 0 ==> post == pre,
        post_input.is_none(),
{
}


/// No key takes back a request to quit.
pub proof fn lemma_keys_keep_quit(
    code: KeyCode,
    pre: AppState,
    pre_input: Option<Seq<char>>,
    now: u128,
    post: AppState,
    post_input: Option<Seq<char>>,
    r: Option<bool>,
)
    requires
        pre.should_quit,
        key_post(code, pre, pre_input, now, post, post_input, r),
    ensures
        post.should_quit,
{
}


/// What each key does in normal mode (entry field closed), field by field:
/// r or R resets the counter, q, Q, Esc or Ctrl+C quits, s or S opens the
/// entry field, b/B, m/M, j/J and h/H cycle the button, the mode, the jitter
/// switch and the hotkey, Left and Right move the jitter by 1 ms within
/// 1 ..= 100, Space toggles; each leaves everything else as it was.
pub proof fn lemma_normal_mode_keys(
    code: KeyCode,
    pre: AppState,
    now: u128,
    post: AppState,
    post_input: Option<Seq<char>>,
    r: Option<bool>,
)
    requires
        key_post(code, pre, None, now, post, post_input, r),
    ensures
        code == KeyCode::Char('r') || code == KeyCode::Char('R') ==> {
            &&& post.click_count == 0
            &&& post.active == pre.active && post.should_quit == pre.should_quit
            &&& post.settings == pre.settings && post.last_toggle == pre.last_toggle
            &&& post_input.is_none() && r.is_none()
        },
        code == KeyCode::Char('q') || code == KeyCode::Char('Q') || code == KeyCode::Esc || code
            == KeyCode::Interrupt ==> {
            &&& post.should_quit
            &&& post.active == pre.active && post.click_count == pre.click_count
            &&& post.settings == pre.settings && post.last_toggle == pre.last_toggle
            &&& post_input.is_none() && r.is_none()
        },
        code == KeyCode::Char('s') || code == KeyCode::Char('S') ==> post == pre && post_input == Some(
            Seq::<char>::empty(),
        ) && r.is_none(),
        code == KeyCode::Char('b') || code == KeyCode::Char('B') ==> {
            &&& post.settings.button == button_after(pre.settings.button)
            &&& post.settings.button != pre.settings.button
            &&& post.settings.mode == pre.settings.mode && post.settings.cps == pre.settings.cps
            &&& post.click_count == pre.click_count && post.active == pre.active
        },
        code == KeyCode::Char('m') || code == KeyCode::Char('M') ==> {
            &&& post.settings.mode == mode_after(pre.settings.mode)
            &&& post.settings.mode != pre.settings.mode
            &&& post.settings.button == pre.settings.button && post.settings.cps == pre.settings.cps
        },
        code == KeyCode::Char('j') || code == KeyCode::Char('J') ==> post.settings.jitter_enabled
            != pre.settings.jitter_enabled && post.settings.jitter_ms == pre.settings.jitter_ms,
        code == KeyCode::Char('h') || code == KeyCode::Char('H') ==> post.settings.hotkey_index == (
        pre.settings.hotkey_index + 1) % (HOTKEY_COUNT as int) && post.settings.cps == pre.settings.cps,
        code == KeyCode::Right ==> post.settings.jitter_ms == (if pre.settings.jitter_ms < MAX_JITTER_MS {
            pre.settings.jitter_ms + 1
        } else {
            pre.settings.jitter_ms as int
        }),
        code == KeyCode::Left ==> post.settings.jitter_ms == (if pre.settings.jitter_ms > MIN_JITTER_MS {
            pre.settings.jitter_ms - 1
        } else {
            pre.settings.jitter_ms as int
        }),
        code == KeyCode::Up ==> post.settings.cps == (if pre.settings.cps >= MAX_CPS {
            pre.settings.cps as int
        } else if pre.settings.cps + step_for(pre.settings.cps) < MAX_CPS {
            pre.settings.cps + step_for(pre.settings.cps)
        } else {
            MAX_CPS as int
        }),
        code == KeyCode::Char(' ') ==> post.click_count == pre.click_count && post.settings
            == pre.settings && post_input.is_none() && (r.is_some() <==> post.active != pre.active) && (
        r.is_some() ==> r == Some(post.active)),
{
}

/// While the entry field is open, a digit is appended (up to four), other
/// characters, q included, are ignored, Backspace deletes the last digit,
/// and nothing but Enter (a non-empty entry) or Ctrl+C changes the state.
pub proof fn lemma_editing_keys(
    code: KeyCode,
    buf: Seq<char>,
    pre: AppState,
    now: u128,
    post: AppState,
    post_input: Option<Seq<char>>,
    r: Option<bool>,
)
    requires
        key_post(code, pre, Some(buf), now, post, post_input, r),
    ensures
        r.is_none(),
        code != KeyCode::Enter && code != KeyCode::Interrupt ==> post == pre,
        code == KeyCode::Interrupt ==> post.should_quit && post_input == Some(buf),
        code matches KeyCode::Char(c) ==> post_input == Some(
            if is_digit(c) && buf.len() < MAX_CPS_DIGITS {
                buf.push(c)
            } else {
                buf
            },
        ),
        code == KeyCode::Backspace && buf.len() > 0 ==> post_input == Some(buf.drop_last()),
        code == KeyCode::Esc ==> post_input.is_none(),
        code == KeyCode::Enter ==> post_input.is_none() && post.click_count == pre.click_count
            && post.active == pre.active && post.settings.button == pre.settings.button,
{
}

} // verus!
