//! Settings and the application state shared by the clicker, the hotkey
//! listeners and the terminal interface.

use vstd::prelude::*;

use crate::clock::{elapsed_nanos, instant_now, MAX_DURATION_NANOS};

verus! {

/// The mouse button the clicker presses.
#[derive(Debug, Clone, Copy, PartialEq, Eq, Structural)]
pub enum MouseButton {
    Left,
    Middle,
    Right,
}

/// The button that follows `b` in the cycle Left, Right, Middle.
pub open spec fn button_after(b: MouseButton) -> MouseButton {
    match b {
        MouseButton::Left => MouseButton::Right,
        MouseButton::Right => MouseButton::Middle,
        MouseButton::Middle => MouseButton::Left,
    }
}

/// The text shown for a button.
pub open spec fn button_text(b: MouseButton) -> Seq<char> {
    match b {
        MouseButton::Left => "Left"@,
        MouseButton::Right => "Right"@,
        MouseButton::Middle => "Middle"@,
    }
}

impl MouseButton {
    /// Cycles Left -> Right -> Middle -> Left.
    pub fn next(self) -> (r: Self)
        ensures
            r == button_after(self),
    {
        match self {
            MouseButton::Left => MouseButton::Right,
            MouseButton::Right => MouseButton::Middle,
            MouseButton::Middle => MouseButton::Left,
        }
    }

    pub fn label(self) -> (r: &'static str)
        ensures
            r@ == button_text(self),
    {
        match self {
            MouseButton::Left => "Left",
            MouseButton::Right => "Right",
            MouseButton::Middle => "Middle",
        }
    }
}

/// How one click of the clicker is performed.
#[derive(Debug, Clone, Copy, PartialEq, Eq, Structural)]
pub enum ClickMode {
    Click,
    DoubleClick,
    Hold,
}

/// The mode that follows `m` in the cycle Click, DoubleClick, Hold.
pub open spec fn mode_after(m: ClickMode) -> ClickMode {
    match m {
        ClickMode::Click => ClickMode::DoubleClick,
        ClickMode::DoubleClick => ClickMode::Hold,
        ClickMode::Hold => ClickMode::Click,
    }
}

/// The text shown for a mode.
pub open spec fn mode_text(m: ClickMode) -> Seq<char> {
    match m {
        ClickMode::Click => "Click"@,
        ClickMode::DoubleClick => "Double"@,
        ClickMode::Hold => "Hold"@,
    }
}

impl ClickMode {
    /// Cycles Click -> DoubleClick -> Hold -> Click.
    pub fn next(self) -> (r: Self)
        ensures
            r == mode_after(self),
    {
        match self {
            ClickMode::Click => ClickMode::DoubleClick,
            ClickMode::DoubleClick => ClickMode::Hold,
            ClickMode::Hold => ClickMode::Click,
        }
    }

    pub fn label(self) -> (r: &'static str)
        ensures
            r@ == mode_text(self),
    {
        match self {
            ClickMode::Click => "Click",
            ClickMode::DoubleClick => "Double",
            ClickMode::Hold => "Hold",
        }
    }
}

/// A key that can toggle the clicker from any window: its Linux input event
/// code and the name shown for it.
#[derive(Debug, Clone, Copy)]
pub struct HotkeyBinding {
    pub code: u16,
    pub label: &'static str,
}

/// Number of selectable hotkeys (F6 to F12).
pub const HOTKEY_COUNT: usize = 7;

/// Input event code of the hotkey at `index` (linux/input-event-codes.h:
/// F6=64, F7=65, F8=66, F9=67, F10=68, F11=87, F12=88).
pub open spec fn hotkey_code(index: int) -> u16 {
    if index == 0 {
        64
    } else if index == 1 {
        65
    } else if index == 2 {
        66
    } else if index == 3 {
        67
    } else if index == 4 {
        68
    } else if index == 5 {
        87
    } else {
        88
    }
}

/// Name of the hotkey at `index`.
pub open spec fn hotkey_text(index: int) -> Seq<char> {
    if index == 0 {
        "F6"@
    } else if index == 1 {
        "F7"@
    } else if index == 2 {
        "F8"@
    } else if index == 3 {
        "F9"@
    } else if index == 4 {
        "F10"@
    } else if index == 5 {
        "F11"@
    } else {
        "F12"@
    }
}

/// The selectable hotkey at `index`, in the order F6 .. F12.
pub fn hotkey_option(index: usize) -> (r: HotkeyBinding)
    requires
        index < HOTKEY_COUNT,
    ensures
        r.code == hotkey_code(index as int),
        r.label@ == hotkey_text(index as int),
{
    if index == 0 {
        HotkeyBinding { code: 64, label: "F6" }
    } else if index == 1 {
        HotkeyBinding { code: 65, label: "F7" }
    } else if index == 2 {
        HotkeyBinding { code: 66, label: "F8" }
    } else if index == 3 {
        HotkeyBinding { code: 67, label: "F9" }
    } else if index == 4 {
        HotkeyBinding { code: 68, label: "F10" }
    } else if index == 5 {
        HotkeyBinding { code: 87, label: "F11" }
    } else {
        HotkeyBinding { code: 88, label: "F12" }
    }
}

/// Lowest and highest clicks per second.
pub const MIN_CPS: u32 = 1;

pub const MAX_CPS: u32 = 1000;

/// Lowest and highest jitter, in milliseconds.
pub const MIN_JITTER_MS: u32 = 1;

pub const MAX_JITTER_MS: u32 = 100;

/// The user's clicker settings.
#[derive(Debug, Clone, Copy)]
pub struct Settings {
    pub cps: u32,
    pub button: MouseButton,
    pub mode: ClickMode,
    pub jitter_enabled: bool,
    pub jitter_ms: u32,
    pub hotkey_index: usize,
}

impl Settings {
    /// The ranges that the interface keeps every setting in.
    pub open spec fn wf(self) -> bool {
        &&& MIN_CPS <= self.cps <= MAX_CPS
        &&& MIN_JITTER_MS <= self.jitter_ms <= MAX_JITTER_MS
        &&& self.hotkey_index < HOTKEY_COUNT
    }

    /// The selected hotkey.
    pub fn hotkey(&self) -> (r: HotkeyBinding)
        requires
            self.hotkey_index < HOTKEY_COUNT,
        ensures
            r.code == hotkey_code(self.hotkey_index as int),
            r.label@ == hotkey_text(self.hotkey_index as int),
    {
        hotkey_option(self.hotkey_index)
    }

    /// Time between two clicks in microseconds: 1000 / cps milliseconds,
    /// rounded down.
    pub fn interval_micros(&self) -> (r: u64)
        requires
            self.cps >= 1,
        ensures
            r == 1_000_000int / (self.cps as int),
    {
        1_000_000u64 / (self.cps as u64)
    }
}

impl Default for Settings {
    fn default() -> (r: Self)
        ensures
            r.cps == 20,
            r.button == MouseButton::Left,
            r.mode == ClickMode::Click,
            !r.jitter_enabled,
            r.jitter_ms == 5,
            r.hotkey_index == 0,
    {
        Settings {
            cps: 20,
            button: MouseButton::Left,
            mode: ClickMode::Click,
            jitter_enabled: false,
            jitter_ms: 5,
            hotkey_index: 0,  // F6
        }
    }
}

/// Toggles closer together than this (100 ms) are ignored: several keyboard
/// devices can report the same key press nearly simultaneously.
pub const TOGGLE_DEBOUNCE_NANOS: u128 = 100_000_000;

/// Time from `prev` to `now`; a reading earlier than `prev` counts as no time.
pub open spec fn nanos_between(prev: u128, now: u128) -> int {
    if now >= prev {
        now - prev
    } else {
        0
    }
}

/// The click counter after one more click: it wraps around at `u64::MAX`.
pub open spec fn click_step(c: u64) -> u64 {
    if c == u64::MAX {
        0
    } else {
        (c + 1) as u64
    }
}

/// The click counter after `n` more clicks.
pub open spec fn clicks_after(c: u64, n: nat) -> u64
    decreases n,
{
    if n == 0 {
        c
    } else {
        click_step(clicks_after(c, (n - 1) as nat))
    }
}

/// The state shared by the clicker, the hotkey listeners and the interface.
pub struct AppState {
    pub active: bool,
    pub click_count: u64,
    pub should_quit: bool,
    pub settings: Settings,
    /// Clock reading of the last accepted toggle; `None` before the first.
    pub last_toggle: Option<u128>,
    /// Origin of this state's clock readings.
    pub epoch: std::time::Instant,
}

impl AppState {
    /// Whether a toggle at clock reading `now` is accepted: always the first
    /// time, afterwards only 100 ms or more after the last accepted one.
    pub open spec fn toggle_accepted(&self, now: u128) -> bool {
        match self.last_toggle {
            None => true,
            Some(prev) => nanos_between(prev, now) >= TOGGLE_DEBOUNCE_NANOS,
        }
    }

    /// `post` and `r` are what a toggle at clock reading `now` makes of
    /// `pre`: if accepted, `active` flips, the reading is remembered and the
    /// new activity is reported for a notification; else nothing changes.
    pub open spec fn toggle_post(pre: AppState, now: u128, post: AppState, r: Option<bool>) -> bool {
        &&& if pre.toggle_accepted(now) {
            &&& post.active == !pre.active
            &&& post.last_toggle == Some(now)
            &&& r == Some(!pre.active)
        } else {
            &&& post.active == pre.active
            &&& post.last_toggle == pre.last_toggle
            &&& r.is_none()
        }
        &&& post.click_count == pre.click_count
        &&& post.should_quit == pre.should_quit
        &&& post.settings == pre.settings
        &&& post.epoch == pre.epoch
    }

    /// The state and the report after a toggle at clock reading `now`; the
    /// same as `toggle_post` says, as a function.
    pub open spec fn toggle_step(pre: AppState, now: u128) -> (AppState, Option<bool>) {
        if pre.toggle_accepted(now) {
            (AppState { active: !pre.active, last_toggle: Some(now), ..pre }, Some(!pre.active))
        } else {
            (pre, None)
        }
    }

    /// A fresh state: idle, no clicks, default settings, no toggle yet.
    pub fn new() -> (r: Self)
        ensures
            !r.active,
            r.click_count == 0,
            !r.should_quit,
            r.settings.cps == 20,
            r.settings.button == MouseButton::Left,
            r.settings.mode == ClickMode::Click,
            !r.settings.jitter_enabled,
            r.settings.jitter_ms == 5,
            r.settings.hotkey_index == 0,
            r.last_toggle.is_none(),
    {
        AppState {
            active: false,
            click_count: 0,
            should_quit: false,
            settings: Settings::default(),
            // None = no previous toggle, so the first toggle always succeeds
            last_toggle: None,
            epoch: instant_now(),
        }
    }

    /// Nanoseconds since this state was created.
    pub fn clock_nanos(&self) -> (r: u128)
        ensures
            r <= MAX_DURATION_NANOS,
    {
        elapsed_nanos(&self.epoch)
    }

    /// Toggle at clock reading `now`, with the debounce. Returns the new
    /// activity when the toggle was accepted, `None` when it was ignored.
    pub fn toggle_at(&mut self, now: u128) -> (r: Option<bool>)
        ensures
            Self::toggle_post(*old(self), now, *final(self), r),
    {
        if let Some(prev) = self.last_toggle {
            let elapsed: u128 = if now >= prev {
                now - prev
            } else {
                0
            };
            if elapsed < TOGGLE_DEBOUNCE_NANOS {
                return None;
            }
        }
        self.last_toggle = Some(now);
        self.active = !self.active;
        Some(self.active)
    }

    /// Toggle now, with the debounce; see `toggle_at`.
    pub fn toggle(&mut self) -> (r: Option<bool>)
        ensures
            exists|now: u128|
                now <= MAX_DURATION_NANOS && #[trigger] Self::toggle_post(
                    *old(self),
                    now,
                    *final(self),
                    r,
                ),
    {
        let now = self.clock_nanos();
        self.toggle_at(now)
    }

    /// Deactivate without the debounce (used for programmatic stops, such as
    /// a failed emission); the caller reports the stop.
    pub fn force_deactivate(&mut self)
        ensures
            !final(self).active,
            final(self).click_count == old(self).click_count,
            final(self).should_quit == old(self).should_quit,
            final(self).settings == old(self).settings,
            final(self).last_toggle == old(self).last_toggle,
            final(self).epoch == old(self).epoch,
    {
        self.active = false;
    }

    pub fn is_active(&self) -> (r: bool)
        ensures
            r == self.active,
    {
        self.active
    }

    /// Counts one click; the counter wraps around at `u64::MAX`.
    pub fn increment_clicks(&mut self)
        ensures
            final(self).click_count == click_step(old(self).click_count),
            final(self).active == old(self).active,
            final(self).should_quit == old(self).should_quit,
            final(self).settings == old(self).settings,
            final(self).last_toggle == old(self).last_toggle,
            final(self).epoch == old(self).epoch,
    {
        if self.click_count == u64::MAX {
            self.click_count = 0;
        } else {
            self.click_count = self.click_count + 1;
        }
    }

    pub fn click_count(&self) -> (r: u64)
        ensures
            r == self.click_count,
    {
        self.click_count
    }

    pub fn reset_clicks(&mut self)
        ensures
            final(self).click_count == 0,
            final(self).active == old(self).active,
            final(self).should_quit == old(self).should_quit,
            final(self).settings == old(self).settings,
            final(self).last_toggle == old(self).last_toggle,
            final(self).epoch == old(self).epoch,
    {
        self.click_count = 0;
    }

    pub fn quit(&mut self)
        ensures
            *final(self) == (AppState { should_quit: true, ..*old(self) }),
    {
        self.should_quit = true;
    }

    pub fn should_quit(&self) -> (r: bool)
        ensures
            r == self.should_quit,
    {
        self.should_quit
    }
}


/// Pressing B three times brings back the same button, and every press
/// changes it.
pub proof fn lemma_button_cycle(b: MouseButton)
    ensures
        button_after(button_after(button_after(b))) == b,
        button_after(b) != b,
{
}

/// Pressing M three times brings back the same mode, and every press
/// changes it.
pub proof fn lemma_mode_cycle(m: ClickMode)
    ensures
        mode_after(mode_after(mode_after(m))) == m,
        mode_after(m) != m,
{
}

/// The first toggle is always accepted and flips the activity.
pub proof fn lemma_first_toggle_accepted(pre: AppState, now: u128, post: AppState, r: Option<bool>)
    requires
        pre.last_toggle.is_none(),
        AppState::toggle_post(pre, now, post, r),
    ensures
        r == Some(!pre.active),
        post.active == !pre.active,
{
}

/// A toggle less than 100 ms after an accepted one (and not before it) is
/// ignored and changes nothing; one 100 ms or more later is accepted.
pub proof fn lemma_toggle_debounce(
    pre: AppState,
    t1: u128,
    mid: AppState,
    r1: Option<bool>,
    t2: u128,
    post: AppState,
    r2: Option<bool>,
)
    requires
        AppState::toggle_post(pre, t1, mid, r1),
        r1.is_some(),
        AppState::toggle_post(mid, t2, post, r2),
        t1 <= t2,
    ensures
        t2 < t1 + TOGGLE_DEBOUNCE_NANOS ==> r2.is_none() && post.active == mid.active
            && post.last_toggle == mid.last_toggle,
        t2 >= t1 + TOGGLE_DEBOUNCE_NANOS ==> r2 == Some(!mid.active) && post.active == pre.active,
{
}

/// Two accepted toggles bring back the activity the state had.
pub proof fn lemma_toggle_twice_restores(
    pre: AppState,
    t1: u128,
    mid: AppState,
    r1: Option<bool>,
    t2: u128,
    post: AppState,
    r2: Option<bool>,
)
    requires
        AppState::toggle_post(pre, t1, mid, r1),
        AppState::toggle_post(mid, t2, post, r2),
        r1.is_some(),
        r2.is_some(),
    ensures
        post.active == pre.active,
        post.click_count == pre.click_count,
        post.settings == pre.settings,
{
}


/// The 100 ms window runs from the last accepted toggle: a toggle ignored
/// inside it does not extend it, so after an accepted toggle at `t0`, an
/// ignored one at `t1`, and one at `t2` 100 ms or more after `t0`, the third
/// is accepted and the activity is back to what it was before `t0`.
pub proof fn lemma_ignored_toggle_keeps_window(
    pre: AppState,
    t0: u128,
    s1: AppState,
    r0: Option<bool>,
    t1: u128,
    s2: AppState,
    r1: Option<bool>,
    t2: u128,
    s3: AppState,
    r2: Option<bool>,
)
    requires
        AppState::toggle_post(pre, t0, s1, r0),
        r0.is_some(),
        AppState::toggle_post(s1, t1, s2, r1),
        t0 <= t1 < t0 + TOGGLE_DEBOUNCE_NANOS,
        AppState::toggle_post(s2, t2, s3, r2),
        t2 >= t0 + TOGGLE_DEBOUNCE_NANOS,
    ensures
        r1.is_none(),
        s2.last_toggle == Some(t0),
        r2 == Some(pre.active),
        s3.active == pre.active,
{
}

/// `n` clicks counted one after another add `n` to the counter, modulo 2^64:
/// no click is lost.
pub proof fn lemma_clicks_add_up(c: u64, n: nat)
    ensures
        clicks_after(c, n) as int == (c as int + n) % 0x1_0000_0000_0000_0000int,
    decreases n,
{
    if n > 0 {
        lemma_clicks_add_up(c, (n - 1) as nat);
        let m = 0x1_0000_0000_0000_0000int;
        let a = c as int + (n - 1);
        let x = clicks_after(c, (n - 1) as nat);
        assert(x as int == a % m);
        assert(a >= 0);
        if x == u64::MAX {
            assert((a + 1) % m == 0) by {
                vstd::arithmetic::div_mod::lemma_add_mod_noop(a, 1, m);
            }
        } else {
            assert((a + 1) % m == a % m + 1) by {
                vstd::arithmetic::div_mod::lemma_add_mod_noop(a, 1, m);
                vstd::arithmetic::div_mod::lemma_small_mod((a % m + 1) as nat, m as nat);
            }
        }
    }
}

/// Once quitting is requested it stays requested: a toggle keeps the flag,
/// and a second `quit` changes nothing.
pub proof fn lemma_quit_is_permanent(pre: AppState, now: u128, post: AppState, r: Option<bool>)
    requires
        pre.should_quit,
    ensures
        AppState::toggle_post(pre, now, post, r) ==> post.should_quit,
        (AppState { should_quit: true, ..pre }) == pre,
{
}

} // verus!
