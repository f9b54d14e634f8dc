//! The decisions of the clicker loop, as a state machine. The caller performs
//! each action (emitting on the virtual mouse, sleeping, updating the shared
//! state) and hands back what it then observes.

use rand::Rng;
use vstd::prelude::*;

use crate::app::{ClickMode, MouseButton, Settings};

verus! {

/// Sleep while the clicker is idle, and between checks while a button is held.
pub const POLL_MICROS: u64 = 10_000;

/// Pause between the two clicks of a double click.
pub const DOUBLE_CLICK_GAP_MICROS: u64 = 30_000;

/// Shortest sleep between clicks when jitter is on (1 ms).
pub const MIN_JITTERED_SLEEP_MICROS: u64 = 1_000;

/// What the clicker loop reads from the shared state.
#[derive(Debug, Clone, Copy)]
pub struct Observation {
    pub quit: bool,
    pub active: bool,
    pub settings: Settings,
}

/// Where the clicker loop stands. The settings carried are the snapshot taken
/// when the current click started.
#[derive(Debug, Clone, Copy)]
pub enum ClickerPhase {
    /// At the head of the loop.
    Ready,
    /// A full click was emitted; next comes the sleep until the next click.
    Clicked { settings: Settings },
    /// The first click of a double click was emitted.
    FirstOfDouble { settings: Settings },
    /// The pause between the two clicks of a double click is over.
    DoublePause { settings: Settings },
    /// The button was pressed for a hold.
    Pressed { settings: Settings },
    /// The button is being held.
    Holding { settings: Settings },
    /// The loop has ended.
    Stopped,
}

/// The outside work an action asks for.
#[derive(Debug, Clone, Copy)]
pub enum ClickerOp {
    /// None: observe the shared state again at once.
    Observe,
    /// Sleep, then observe.
    Sleep { micros: u64 },
    /// Emit a press and a release of the button, then report whether both
    /// emissions succeeded.
    Click { button: MouseButton },
    /// Emit a press of the button, then report whether it succeeded.
    Press { button: MouseButton },
    /// Leave the loop.
    Exit,
}

/// One step's work, done in this order: release all three buttons, force the
/// clicker inactive (and report that), count one click, then `op`.
#[derive(Debug, Clone, Copy)]
pub struct ClickerAction {
    pub release_all: bool,
    pub deactivate: bool,
    pub count_click: bool,
    pub op: ClickerOp,
}

pub open spec fn act(release_all: bool, deactivate: bool, count_click: bool, op: ClickerOp) -> ClickerAction {
    ClickerAction { release_all, deactivate, count_click, op }
}

/// Sleep after a click, in microseconds: the interval 1000 / cps ms,
/// moved by `offset` microseconds and kept at 1 ms or more when jitter is on.
pub open spec fn sleep_after_click(s: Settings, offset: i64) -> int {
    let interval = 1_000_000int / (s.cps as int);
    if s.jitter_enabled {
        if interval + offset >= MIN_JITTERED_SLEEP_MICROS {
            interval + offset
        } else {
            MIN_JITTERED_SLEEP_MICROS as int
        }
    } else {
        interval
    }
}

/// The jitter bound in microseconds for the given settings.
pub open spec fn jitter_bound(s: Settings) -> int {
    s.jitter_ms as int * 1000
}

/// After an emission failed: release everything, stop, look again.
pub open spec fn recover() -> (ClickerPhase, ClickerAction) {
    (ClickerPhase::Ready, act(true, true, false, ClickerOp::Observe))
}

/// While holding: keep holding (sleep and look again) as long as the clicker
/// is active, not quitting, and the button and mode are as when the hold
/// began; otherwise release everything and go back to the loop head.
pub open spec fn hold_check(s: Settings, obs: Observation, count: bool) -> (ClickerPhase, ClickerAction) {
    if obs.active && !obs.quit && obs.settings.button == s.button && obs.settings.mode == s.mode {
        (ClickerPhase::Holding { settings: s }, act(false, false, count, ClickerOp::Sleep { micros: POLL_MICROS }))
    } else {
        (ClickerPhase::Ready, act(true, false, count, ClickerOp::Observe))
    }
}

/// The clicker's transition: from `phase`, with `emit_ok` the outcome of the
/// emission the previous action asked for (ignored after other work), `obs`
/// what the shared state now holds, and `offset` the jitter drawn for the
/// sleep after a click.
pub open spec fn transition(phase: ClickerPhase, emit_ok: bool, obs: Observation, offset: i64) -> (ClickerPhase, ClickerAction) {
    match phase {
        ClickerPhase::Ready => {
            if obs.quit {
                // Shutdown: release all buttons, then leave.
                (ClickerPhase::Stopped, act(true, false, false, ClickerOp::Exit))
            } else if !obs.active {
                (ClickerPhase::Ready, act(false, false, false, ClickerOp::Sleep { micros: POLL_MICROS }))
            } else {
                let s = obs.settings;
                match s.mode {
                    ClickMode::Click => (ClickerPhase::Clicked { settings: s }, act(false, false, false, ClickerOp::Click { button: s.button })),
                    ClickMode::DoubleClick => (ClickerPhase::FirstOfDouble { settings: s }, act(false, false, false, ClickerOp::Click { button: s.button })),
                    ClickMode::Hold => (ClickerPhase::Pressed { settings: s }, act(false, false, false, ClickerOp::Press { button: s.button })),
                }
            }
        },
        ClickerPhase::Clicked { settings: s } => {
            if !emit_ok {
                recover()
            } else {
                (ClickerPhase::Ready, act(false, false, true, ClickerOp::Sleep { micros: sleep_after_click(s, offset) as u64 }))
            }
        },
        ClickerPhase::FirstOfDouble { settings: s } => {
            if !emit_ok {
                recover()
            } else if !obs.active || obs.quit {
                (ClickerPhase::Ready, act(false, false, true, ClickerOp::Observe))
            } else {
                (ClickerPhase::DoublePause { settings: s }, act(false, false, false, ClickerOp::Sleep { micros: DOUBLE_CLICK_GAP_MICROS }))
            }
        },
        ClickerPhase::DoublePause { settings: s } => {
            if !obs.active || obs.quit {
                (ClickerPhase::Ready, act(false, false, true, ClickerOp::Observe))
            } else {
                (ClickerPhase::Clicked { settings: s }, act(false, false, false, ClickerOp::Click { button: s.button }))
            }
        },
        ClickerPhase::Pressed { settings: s } => {
            if !emit_ok {
                recover()
            } else {
                hold_check(s, obs, true)
            }
        },
        ClickerPhase::Holding { settings: s } => hold_check(s, obs, false),
        ClickerPhase::Stopped => (ClickerPhase::Stopped, act(false, false, false, ClickerOp::Exit)),
    }
}

/// Whether a settings snapshot can be clicked with: a positive speed.
pub open spec fn phase_wf(phase: ClickerPhase) -> bool {
    match phase {
        ClickerPhase::Clicked { settings: s } => s.cps >= 1,
        ClickerPhase::FirstOfDouble { settings: s } => s.cps >= 1,
        ClickerPhase::DoublePause { settings: s } => s.cps >= 1,
        ClickerPhase::Pressed { settings: s } => s.cps >= 1,
        ClickerPhase::Holding { settings: s } => s.cps >= 1,
        _ => true,
    }
}

/// The sleep after a click; see `sleep_after_click`.
pub fn sleep_micros(settings: &Settings, offset: i64) -> (r: u64)
    requires
        settings.cps >= 1,
    ensures
        r as int == sleep_after_click(*settings, offset),
{
    let interval = settings.interval_micros();
    if settings.jitter_enabled {
        let moved: i128 = interval as i128 + offset as i128;
        if moved >= MIN_JITTERED_SLEEP_MICROS as i128 {
            moved as u64
        } else {
            MIN_JITTERED_SLEEP_MICROS
        }
    } else {
        interval
    }
}

/// Calls `rand::thread_rng().gen_range(low..=high)`: a uniformly drawn
/// integer between `low` and `high`, both included. The draw itself is not
/// stated; `thread_rng` panics if the operating system's random source
/// cannot seed it, which no argument can rule out.
#[verifier::external_body]
fn random_in_range(low: i64, high: i64) -> (r: i64)
    requires
        low <= high,
    ensures
        low <= r <= high,
{
    rand::thread_rng().gen_range(low..=high)
}

/// The clicker loop's state machine.
pub struct Clicker {
    pub phase: ClickerPhase,
    /// The range, in microseconds, that the last jitter offset was drawn
    /// from; `None` before the first draw.
    pub jitter_range: Option<(i64, i64)>,
}

/// Whether the step from `phase` draws a jitter offset: it sleeps after a
/// successful click with jitter on.
pub open spec fn draws_jitter(phase: ClickerPhase, emit_ok: bool) -> bool {
    match phase {
        ClickerPhase::Clicked { settings: s } => emit_ok && s.jitter_enabled,
        _ => false,
    }
}

/// The jitter range of a settings snapshot: plus or minus the jitter, in
/// microseconds.
pub open spec fn jitter_range_of(s: Settings) -> (i64, i64) {
    ((-jitter_bound(s)) as i64, jitter_bound(s) as i64)
}

impl Clicker {
    pub fn new() -> (r: Self)
        ensures
            r.phase == ClickerPhase::Ready,
            r.jitter_range.is_none(),
    {
        Clicker { phase: ClickerPhase::Ready, jitter_range: None }
    }

    /// One transition with a given jitter `offset`; see `transition`.
    pub fn step_with_offset(&mut self, emit_ok: bool, obs: &Observation, offset: i64) -> (r:
        ClickerAction)
        requires
            phase_wf(old(self).phase),
            obs.settings.cps >= 1,
        ensures
            (final(self).phase, r) == transition(old(self).phase, emit_ok, *obs, offset),
            phase_wf(final(self).phase),
            final(self).jitter_range == old(self).jitter_range,
    {
        match self.phase {
            ClickerPhase::Ready => {
                if obs.quit {
                    // Clean up: release all buttons on shutdown
                    self.phase = ClickerPhase::Stopped;
                    ClickerAction { release_all: true, deactivate: false, count_click: false, op: ClickerOp::Exit }
                } else if !obs.active {
                    ClickerAction { release_all: false, deactivate: false, count_click: false, op: ClickerOp::Sleep { micros: POLL_MICROS } }
                } else {
                    let s = obs.settings;
                    match s.mode {
                        ClickMode::Click => {
                            self.phase = ClickerPhase::Clicked { settings: s };
                            ClickerAction { release_all: false, deactivate: false, count_click: false, op: ClickerOp::Click { button: s.button } }
                        },
                        ClickMode::DoubleClick => {
                            self.phase = ClickerPhase::FirstOfDouble { settings: s };
                            ClickerAction { release_all: false, deactivate: false, count_click: false, op: ClickerOp::Click { button: s.button } }
                        },
                        ClickMode::Hold => {
                            self.phase = ClickerPhase::Pressed { settings: s };
                            ClickerAction { release_all: false, deactivate: false, count_click: false, op: ClickerOp::Press { button: s.button } }
                        },
                    }
                }
            },
            ClickerPhase::Clicked { settings: s } => {
                self.phase = ClickerPhase::Ready;
                if !emit_ok {
                    // emission failed: release everything and stop
                    ClickerAction { release_all: true, deactivate: true, count_click: false, op: ClickerOp::Observe }
                } else {
                    let micros = sleep_micros(&s, offset);
                    ClickerAction { release_all: false, deactivate: false, count_click: true, op: ClickerOp::Sleep { micros } }
                }
            },
            ClickerPhase::FirstOfDouble { settings: s } => {
                if !emit_ok {
                    self.phase = ClickerPhase::Ready;
                    ClickerAction { release_all: true, deactivate: true, count_click: false, op: ClickerOp::Observe }
                } else if !obs.active || obs.quit {
                    // stopped between the two clicks: the first one counts
                    self.phase = ClickerPhase::Ready;
                    ClickerAction { release_all: false, deactivate: false, count_click: true, op: ClickerOp::Observe }
                } else {
                    self.phase = ClickerPhase::DoublePause { settings: s };
                    ClickerAction { release_all: false, deactivate: false, count_click: false, op: ClickerOp::Sleep { micros: DOUBLE_CLICK_GAP_MICROS } }
                }
            },
            ClickerPhase::DoublePause { settings: s } => {
                if !obs.active || obs.quit {
                    self.phase = ClickerPhase::Ready;
                    ClickerAction { release_all: false, deactivate: false, count_click: true, op: ClickerOp::Observe }
                } else {
                    self.phase = ClickerPhase::Clicked { settings: s };
                    ClickerAction { release_all: false, deactivate: false, count_click: false, op: ClickerOp::Click { button: s.button } }
                }
            },
            ClickerPhase::Pressed { settings: s } => {
                if !emit_ok {
                    self.phase = ClickerPhase::Ready;
                    ClickerAction { release_all: true, deactivate: true, count_click: false, op: ClickerOp::Observe }
                } else {
                    self.hold_check(s, obs, true)
                }
            },
            ClickerPhase::Holding { settings: s } => self.hold_check(s, obs, false),
            ClickerPhase::Stopped => {
                ClickerAction { release_all: false, deactivate: false, count_click: false, op: ClickerOp::Exit }
            },
        }
    }

    fn hold_check(&mut self, s: Settings, obs: &Observation, count: bool) -> (r: ClickerAction)
        requires
            s.cps >= 1,
        ensures
            (final(self).phase, r) == hold_check(s, *obs, count),
            final(self).jitter_range == old(self).jitter_range,
    {
        // Stay held until deactivated, quit, or the button or mode changes
        if obs.active && !obs.quit && obs.settings.button == s.button && obs.settings.mode == s.mode {
            self.phase = ClickerPhase::Holding { settings: s };
            ClickerAction { release_all: false, deactivate: false, count_click: count, op: ClickerOp::Sleep { micros: POLL_MICROS } }
        } else {
            self.phase = ClickerPhase::Ready;
            ClickerAction { release_all: true, deactivate: false, count_click: count, op: ClickerOp::Observe }
        }
    }

    /// One transition, drawing the jitter at random when the step sleeps
    /// after a click with jitter on: the action is `transition`'s for some
    /// offset within plus or minus the jitter. A draw is made from the whole
    /// range, plus or minus the jitter in microseconds, which is recorded in
    /// `jitter_range`; without a draw the offset is 0.
    pub fn step(&mut self, emit_ok: bool, obs: &Observation) -> (r: ClickerAction)
        requires
            phase_wf(old(self).phase),
            obs.settings.cps >= 1,
        ensures
            exists|offset: i64|
                #![trigger transition(old(self).phase, emit_ok, *obs, offset)]
                (final(self).phase, r) == transition(old(self).phase, emit_ok, *obs, offset)
                && (old(self).phase matches ClickerPhase::Clicked { settings: s } ==> -jitter_bound(s) <= offset <= jitter_bound(s))
                && (draws_jitter(old(self).phase, emit_ok) ==> (final(self).jitter_range matches Some((low, high)) && low <= offset <= high))
                && (!draws_jitter(old(self).phase, emit_ok) ==> offset == 0),
            phase_wf(final(self).phase),
            final(self).jitter_range == (match old(self).phase {
                ClickerPhase::Clicked { settings: s } => if emit_ok && s.jitter_enabled {
                    Some(jitter_range_of(s))
                } else {
                    old(self).jitter_range
                },
                _ => old(self).jitter_range,
            }),
    {
        let mut offset: i64 = 0;
        if let ClickerPhase::Clicked { settings: s } = self.phase {
            if emit_ok && s.jitter_enabled {
                let bound: i64 = s.jitter_ms as i64 * 1000;
                let low: i64 = -bound;
                let high: i64 = bound;
                self.jitter_range = Some((low, high));
                offset = random_in_range(low, high);
            }
        }
        self.step_with_offset(emit_ok, obs, offset)
    }
}


/// The phases right after an emission was asked for.
pub open spec fn emitted_in(phase: ClickerPhase) -> bool {
    match phase {
        ClickerPhase::Clicked { .. } => true,
        ClickerPhase::FirstOfDouble { .. } => true,
        ClickerPhase::Pressed { .. } => true,
        _ => false,
    }
}

/// Leaving the loop releases all buttons: every step that exits a running
/// clicker asks for the release, and it happens exactly when quitting is
/// observed at the loop head. Once stopped the clicker stays stopped.
pub proof fn lemma_exit_releases(phase: ClickerPhase, emit_ok: bool, obs: Observation, offset: i64)
    ensures
        ({
            let (next, a) = transition(phase, emit_ok, obs, offset);
            &&& a.op is Exit && phase !is Stopped ==> a.release_all
                && next is Stopped
            &&& phase is Ready && obs.quit ==> a.op is Exit
            &&& phase is Stopped ==> next is Stopped
                && a.op is Exit
        }),
{
}

/// A failed emission releases all buttons, deactivates the clicker, counts
/// nothing and goes back to the loop head.
pub proof fn lemma_failed_emission_recovers(phase: ClickerPhase, obs: Observation, offset: i64)
    requires
        emitted_in(phase),
    ensures
        transition(phase, false, obs, offset) == recover(),
        recover().1.release_all && recover().1.deactivate && !recover().1.count_click,
{
}

/// A click is counted only after its emission succeeded: right after a
/// successful emission, or when a double click is cut short after its first
/// click went out. Deactivation comes only with a failed emission.
pub proof fn lemma_counts_follow_emission(phase: ClickerPhase, emit_ok: bool, obs: Observation, offset: i64)
    ensures
        ({
            let a = transition(phase, emit_ok, obs, offset).1;
            &&& a.count_click ==> (emit_ok && emitted_in(phase)) || phase is DoublePause
            &&& a.deactivate ==> !emit_ok && emitted_in(phase)
        }),
{
}

/// A held button is released as soon as the clicker is stopped, quits, or
/// the button or mode changes.
pub proof fn lemma_hold_released_on_change(s: Settings, obs: Observation, offset: i64)
    requires
        !obs.active || obs.quit || obs.settings.button != s.button || obs.settings.mode != s.mode,
    ensures
        transition(ClickerPhase::Holding { settings: s }, true, obs, offset).1.release_all,
        transition(ClickerPhase::Pressed { settings: s }, true, obs, offset).1.release_all,
{
}

/// Without jitter the clicker sleeps 1000 / cps ms between clicks; with
/// jitter and an offset within plus or minus the jitter, it sleeps within
/// the jitter of that interval, and never less than 1 ms.
pub proof fn lemma_sleep_bounds(s: Settings, offset: i64)
    requires
        s.cps >= 1,
        -jitter_bound(s) <= offset <= jitter_bound(s),
    ensures
        !s.jitter_enabled ==> sleep_after_click(s, offset) == 1_000_000int / (s.cps as int),
        s.jitter_enabled ==> sleep_after_click(s, offset) >= MIN_JITTERED_SLEEP_MICROS,
        s.jitter_enabled ==> sleep_after_click(s, offset) <= 1_000_000int / (s.cps as int) + jitter_bound(s)
            || sleep_after_click(s, offset) == MIN_JITTERED_SLEEP_MICROS,
        s.jitter_enabled ==> sleep_after_click(s, offset) >= 1_000_000int / (s.cps as int) - jitter_bound(s),
{
}


/// The settings snapshot a phase carries: those selected when the current
/// click began.
pub open spec fn snapshot_of(phase: ClickerPhase) -> Option<Settings> {
    match phase {
        ClickerPhase::Clicked { settings: s } => Some(s),
        ClickerPhase::FirstOfDouble { settings: s } => Some(s),
        ClickerPhase::DoublePause { settings: s } => Some(s),
        ClickerPhase::Pressed { settings: s } => Some(s),
        ClickerPhase::Holding { settings: s } => Some(s),
        _ => None,
    }
}

/// The button an operation emits with, if it emits.
pub open spec fn emitted_button(op: ClickerOp) -> Option<MouseButton> {
    match op {
        ClickerOp::Click { button } => Some(button),
        ClickerOp::Press { button } => Some(button),
        _ => None,
    }
}

/// The clicker emits only with the selected button. Starting a click from
/// the loop head, it clicks (Click and DoubleClick modes) or presses (Hold
/// mode) the button the settings select, and keeps those settings for the
/// rest of the click; every later emission of that click uses the same
/// button.
pub proof fn lemma_emits_selected_button(phase: ClickerPhase, emit_ok: bool, obs: Observation, offset: i64)
    ensures
        ({
            let (next, a) = transition(phase, emit_ok, obs, offset);
            &&& (phase is Ready && obs.active && !obs.quit) ==> {
                &&& obs.settings.mode == ClickMode::Hold ==> a.op == (ClickerOp::Press { button: obs.settings.button })
                &&& obs.settings.mode != ClickMode::Hold ==> a.op == (ClickerOp::Click { button: obs.settings.button })
                &&& snapshot_of(next) == Some(obs.settings)
            }
            &&& emitted_button(a.op) is Some ==> emitted_button(a.op).unwrap() == (if phase is Ready {
                obs.settings.button
            } else {
                snapshot_of(phase).unwrap().button
            })
            &&& phase !is Ready && snapshot_of(next).is_some() ==> snapshot_of(next) == snapshot_of(phase)
        }),
{
}

/// Every sleep between the interval minus and plus the jitter (and no
/// shorter than 1 ms) is the sleep for some offset in the jitter range: with
/// offsets drawn from the whole range, no such sleep is left out.
pub proof fn lemma_every_jittered_sleep_reachable(s: Settings, d: int)
    requires
        s.cps >= 1,
        s.jitter_enabled,
        d >= MIN_JITTERED_SLEEP_MICROS,
        1_000_000int / (s.cps as int) - jitter_bound(s) <= d <= 1_000_000int / (s.cps as int) + jitter_bound(s),
    ensures
        exists|offset: i64|
            jitter_range_of(s).0 <= offset <= jitter_range_of(s).1 && #[trigger] sleep_after_click(s, offset) == d,
{
    let iv = 1_000_000int / (s.cps as int);
    assert(0 <= iv <= 1_000_000) by (nonlinear_arith)
        requires
            s.cps >= 1,
            iv == 1_000_000int / (s.cps as int),
    ;
    let offset = (d - iv) as i64;
    assert(sleep_after_click(s, offset) == d);
}

} // verus!
