//! Bookkeeping of the global-hotkey listeners: device names, which key
//! events toggle the clicker, when a listener gives up, and when a device
//! that could not be opened may be tried again.

use vstd::prelude::*;

use crate::app::AppState;
use crate::clock::MAX_DURATION_NANOS;

verus! {

/// Longest device name shown, in characters.
pub const MAX_NAME_CHARS: usize = 64;

/// Unicode general category Cc (control codes): U+0000..=U+001F and
/// U+007F..=U+009F.
pub open spec fn is_control_spec(c: char) -> bool {
    (c as u32) <= 0x1f || (0x7f <= (c as u32) && (c as u32) <= 0x9f)
}

/// The characters a shown name keeps.
pub open spec fn keep_pred() -> spec_fn(char) -> bool {
    |c: char| !is_control_spec(c)
}

/// The first `n` elements of `s`, or all of `s` if it is shorter.
pub open spec fn prefix_at_most(s: Seq<char>, n: int) -> Seq<char> {
    if s.len() <= n {
        s
    } else {
        s.take(n)
    }
}

/// A device name as it is shown: the name (or "unknown"), without control
/// characters, cut to its first 64 characters.
pub open spec fn sanitized(raw: Option<Seq<char>>) -> Seq<char> {
    let name = match raw {
        Some(s) => s,
        None => "unknown"@,
    };
    prefix_at_most(name.filter(keep_pred()), MAX_NAME_CHARS as int)
}

/// Whether `c` is a control character (`char::is_control`).
pub fn is_control(c: char) -> (r: bool)
    ensures
        r == is_control_spec(c),
{
    let v = c as u32;
    v <= 0x1f || (0x7f <= v && v <= 0x9f)
}

/// Calls `String::push`, which appends `c` to the end of `s`.
#[verifier::external_body]
fn push_char(s: &mut String, c: char)
    ensures
        final(s)@ == old(s)@.push(c),
{
    s.push(c)
}

/// Device names are hardware-supplied strings headed for the terminal: strip
/// control characters and keep at most 64 characters.
pub fn sanitize_name(raw: Option<&str>) -> (r: String)
    ensures
        r@ == sanitized(
            match raw {
                Some(s) => Some(s@),
                None => None,
            },
        ),
{
    let name: &str = match raw {
        Some(s) => s,
        None => "unknown",
    };
    let ghost keep = keep_pred();
    let mut out = String::new();
    let mut count: usize = 0;
    let ghost full = name@;
    proof {
        reveal(Seq::filter);
        assert(full.take(0).filter(keep) =~= Seq::<char>::empty());
    }
    for c in iter: name.chars()
        invariant
            iter.seq() == full,
            keep == keep_pred(),
            out@ == prefix_at_most(full.take(iter.index() as int).filter(keep), MAX_NAME_CHARS as int),
            count == out@.len(),
            count <= MAX_NAME_CHARS,
    {
        proof {
            let pre = full.take(iter.index() as int);
            let next = full.take(iter.index() + 1);
            assert(next.drop_last() =~= pre);
            assert(next.last() == c);
            reveal(Seq::filter);
            assert(next.filter(keep) == if keep(c) {
                pre.filter(keep).push(c)
            } else {
                pre.filter(keep)
            });
            pre.lemma_filter_len(keep);
            if keep(c) && pre.filter(keep).len() >= MAX_NAME_CHARS {
                assert(prefix_at_most(pre.filter(keep).push(c), MAX_NAME_CHARS as int)
                    =~= prefix_at_most(pre.filter(keep), MAX_NAME_CHARS as int));
            }
        }
        if count < MAX_NAME_CHARS && !is_control(c) {
            push_char(&mut out, c);
            count = count + 1;
        }
    }
    assert(full.take(full.len() as int) =~= full);
    out
}

/// A key event from a keyboard, as the listener sees it: whether it is a key
/// event (`EV_KEY`), the key code and the value (1 press, 0 release,
/// 2 autorepeat).
#[derive(Debug, Clone, Copy)]
pub struct KeyEvent {
    pub is_key: bool,
    pub code: u16,
    pub value: i32,
}

/// A press (not a release or an autorepeat) of the key `hotkey`.
pub open spec fn is_hotkey_press_spec(e: KeyEvent, hotkey: u16) -> bool {
    e.is_key && e.value == 1 && e.code == hotkey
}

pub fn is_hotkey_press(e: &KeyEvent, hotkey: u16) -> (r: bool)
    ensures
        r == is_hotkey_press_spec(*e, hotkey),
{
    e.is_key && e.value == 1 && e.code == hotkey
}

/// Number of presses of `hotkey` among `events`.
pub open spec fn count_presses(events: Seq<KeyEvent>, hotkey: u16) -> nat
    decreases events.len(),
{
    if events.len() == 0 {
        0
    } else {
        count_presses(events.drop_last(), hotkey) + if is_hotkey_press_spec(events.last(), hotkey) {
            1nat
        } else {
            0nat
        }
    }
}

/// `r` lists, in order, the activities that accepted toggles produced,
/// starting from `active`: they alternate.
pub open spec fn alternating_from(active: bool, r: Seq<bool>) -> bool {
    forall|i: int| 0 <= i < r.len() ==> #[trigger] r[i] == (if i % 2 == 0 {
        !active
    } else {
        active
    })
}

/// What handling `events` does to `s`, when the event at index `i` is handled
/// at clock reading `times[i]`: each press of `hotkey` toggles as
/// `AppState::toggle_step` says, other events do nothing. Returns the final
/// state and the reports of the accepted toggles, in order.
pub open spec fn hotkey_run(s: AppState, events: Seq<KeyEvent>, hotkey: u16, times: Seq<u128>) -> (
    AppState,
    Seq<bool>,
)
    decreases events.len(),
{
    if events.len() == 0 || times.len() != events.len() {
        (s, Seq::<bool>::empty())
    } else {
        let (s1, notes) = hotkey_run(s, events.drop_last(), hotkey, times.drop_last());
        if is_hotkey_press_spec(events.last(), hotkey) {
            let (s2, r) = AppState::toggle_step(s1, times.last());
            (
                s2,
                match r {
                    Some(b) => notes.push(b),
                    None => notes,
                },
            )
        } else {
            (s1, notes)
        }
    }
}

impl AppState {
    /// A batch of key events read from a keyboard: every press of the
    /// selected hotkey toggles the clicker (with the debounce, at the time it
    /// is handled). Returns the new activity of each accepted toggle, in
    /// order, for notifications. Only `active` and the last toggle change;
    /// without a hotkey press nothing changes. The outcome is `hotkey_run`'s
    /// for the clock readings at which the events were handled.
    pub fn handle_hotkey_events(&mut self, events: &Vec<KeyEvent>) -> (r: Vec<bool>)
        requires
            old(self).settings.hotkey_index < crate::app::HOTKEY_COUNT,
        ensures
            exists|times: Seq<u128>|
                times.len() == events@.len() && (forall|k: int| 0 <= k < times.len() ==> #[trigger] times[k]
                    <= MAX_DURATION_NANOS) && #[trigger] hotkey_run(
                    *old(self),
                    events@,
                    crate::app::hotkey_code(old(self).settings.hotkey_index as int),
                    times,
                ) == (*final(self), r@),
            r@.len() <= count_presses(events@, crate::app::hotkey_code(old(self).settings.hotkey_index as int)),
            alternating_from(old(self).active, r@),
            final(self).active == (if r@.len() % 2 == 0 {
                old(self).active
            } else {
                !old(self).active
            }),
            r@.len() == 0 ==> final(self).last_toggle == old(self).last_toggle,
            final(self).click_count == old(self).click_count,
            final(self).should_quit == old(self).should_quit,
            final(self).settings == old(self).settings,
            final(self).epoch == old(self).epoch,
    {
        let hotkey_code = self.settings.hotkey().code;
        let mut notes: Vec<bool> = Vec::new();
        let ghost start = *self;
        let ghost mut times: Seq<u128> = Seq::empty();
        let mut i: usize = 0;
        while i < events.len()
            invariant
                i <= events@.len(),
                times.len() == i,
                forall|k: int| 0 <= k < times.len() ==> #[trigger] times[k] <= MAX_DURATION_NANOS,
                hotkey_run(start, events@.take(i as int), hotkey_code, times) == (*self, notes@),
                hotkey_code == crate::app::hotkey_code(start.settings.hotkey_index as int),
                notes@.len() <= count_presses(events@.take(i as int), hotkey_code),
                alternating_from(start.active, notes@),
                self.active == (if notes@.len() % 2 == 0 {
                    start.active
                } else {
                    !start.active
                }),
                notes@.len() == 0 ==> self.last_toggle == start.last_toggle,
                self.click_count == start.click_count,
                self.should_quit == start.should_quit,
                self.settings == start.settings,
                self.epoch == start.epoch,
            decreases events@.len() - i,
        {
            assert(events@.take(i + 1).drop_last() =~= events@.take(i as int));
            let ghost pre_iter = *self;
            let ghost pre_times = times;
            let now = self.clock_nanos();
            proof {
                times = times.push(now);
                assert(times.drop_last() =~= pre_times);
                assert(events@.take(i + 1).last() == events@[i as int]);
            }
            if is_hotkey_press(&events[i], hotkey_code) {
                let ghost before = notes@;
                let toggled = self.toggle_at(now);
                assert(*self == AppState::toggle_step(pre_iter, now).0);
                if let Some(now_active) = toggled {
                    notes.push(now_active);
                    assert forall|k: int| 0 <= k < notes@.len() implies #[trigger] notes@[k] == (if k
                        % 2 == 0 {
                        !start.active
                    } else {
                        start.active
                    }) by {
                        if k < before.len() {
                            assert(notes@[k] == before[k]);
                        }
                    }
                }
            }
            i = i + 1;
        }
        assert(events@.take(events@.len() as int) =~= events@);
        assert(hotkey_run(start, events@, hotkey_code, times) == (*self, notes@));
        notes
    }
}


/// Consecutive read failures after which a listener gives up on its device.
pub const MAX_CONSECUTIVE_ERRORS: u32 = 50;

/// What one wait for input on the device reported.
#[derive(Debug, Clone, Copy, PartialEq, Eq, Structural)]
pub enum PollOutcome {
    /// The wait failed.
    Failed,
    /// Nothing happened before the timeout.
    TimedOut,
    /// The device became ready but reported no events.
    NoEvents,
    /// The device reported events: an error, hang-up or invalid-descriptor
    /// condition, and whether input can be read.
    Events { broken: bool, readable: bool },
}

/// What the listener does next.
#[derive(Debug, Clone, Copy, PartialEq, Eq, Structural)]
pub enum ListenStep {
    /// Wait again.
    Continue,
    /// Read the pending events.
    Fetch,
    /// Stop listening: the device is gone or keeps failing.
    End,
}

/// The decisions of one device's listener loop.
pub struct Listener {
    pub consecutive_errors: u32,
}

impl Listener {
    pub open spec fn wf(&self) -> bool {
        self.consecutive_errors < MAX_CONSECUTIVE_ERRORS
    }

    pub fn new() -> (r: Self)
        ensures
            r.consecutive_errors == 0,
            r.wf(),
    {
        Listener { consecutive_errors: 0 }
    }

    /// At the top of each round, before waiting: the listener ends once
    /// quitting is requested, and otherwise waits for input.
    pub fn before_poll(&self, quit: bool) -> (r: ListenStep)
        ensures
            r == (if quit {
                ListenStep::End
            } else {
                ListenStep::Continue
            }),
    {
        if quit {
            ListenStep::End
        } else {
            ListenStep::Continue
        }
    }

    /// Counts one failure; the listener ends at the 50th in a row.
    fn fail(&mut self) -> (r: ListenStep)
        requires
            old(self).wf(),
        ensures
            r == (if old(self).consecutive_errors + 1 >= MAX_CONSECUTIVE_ERRORS {
                ListenStep::End
            } else {
                ListenStep::Continue
            }),
            r == ListenStep::End ==> final(self).consecutive_errors == MAX_CONSECUTIVE_ERRORS,
            r != ListenStep::End ==> final(self).consecutive_errors == old(self).consecutive_errors + 1 && final(self).wf(),
    {
        self.consecutive_errors = self.consecutive_errors + 1;
        if self.consecutive_errors >= MAX_CONSECUTIVE_ERRORS {
            ListenStep::End
        } else {
            ListenStep::Continue
        }
    }

    /// After a wait: a failed wait counts as a failure; a broken device
    /// ends the listener; readable input is fetched; anything else waits
    /// again.
    pub fn on_poll(&mut self, outcome: PollOutcome) -> (r: ListenStep)
        requires
            old(self).wf(),
        ensures
            r == (match outcome {
                PollOutcome::Failed => if old(self).consecutive_errors + 1 >= MAX_CONSECUTIVE_ERRORS {
                    ListenStep::End
                } else {
                    ListenStep::Continue
                },
                PollOutcome::TimedOut => ListenStep::Continue,
                PollOutcome::NoEvents => ListenStep::Continue,
                PollOutcome::Events { broken, readable } => if broken {
                    ListenStep::End
                } else if readable {
                    ListenStep::Fetch
                } else {
                    ListenStep::Continue
                },
            }),
            final(self).consecutive_errors == (if outcome == PollOutcome::Failed {
                old(self).consecutive_errors + 1
            } else {
                old(self).consecutive_errors as int
            }),
            r != ListenStep::End ==> final(self).wf(),
    {
        match outcome {
            PollOutcome::Failed => self.fail(),
            PollOutcome::TimedOut => ListenStep::Continue,
            PollOutcome::NoEvents => ListenStep::Continue,
            PollOutcome::Events { broken, readable } => {
                // Device disconnected or errored: exit this listener
                if broken {
                    ListenStep::End
                } else if readable {
                    ListenStep::Fetch
                } else {
                    ListenStep::Continue
                }
            },
        }
    }

    /// After reading events: success clears the failure count (the events
    /// are then handled); a failure counts, and the 50th in a row ends the
    /// listener.
    pub fn on_fetch(&mut self, ok: bool) -> (r: ListenStep)
        requires
            old(self).wf(),
        ensures
            ok ==> r == ListenStep::Continue && final(self).consecutive_errors == 0,
            !ok ==> final(self).consecutive_errors == old(self).consecutive_errors + 1 && r == (
            if old(self).consecutive_errors + 1 >= MAX_CONSECUTIVE_ERRORS {
                ListenStep::End
            } else {
                ListenStep::Continue
            }),
            r != ListenStep::End ==> final(self).wf(),
    {
        if ok {
            self.consecutive_errors = 0;
            ListenStep::Continue
        } else {
            self.fail()
        }
    }
}


/// A shown device name holds no control character and at most 64
/// characters; a name of at most 64 characters without control characters
/// is shown as it is.
pub proof fn lemma_sanitized_clean(raw: Option<Seq<char>>)
    ensures
        sanitized(raw).len() <= MAX_NAME_CHARS,
        forall|i: int| 0 <= i < sanitized(raw).len() ==> !is_control_spec(#[trigger] sanitized(raw)[i]),
        (raw matches Some(s) && s.len() <= MAX_NAME_CHARS && forall|i: int| 0 <= i < s.len() ==> !is_control_spec(#[trigger] s[i]))
            ==> sanitized(raw) == raw.unwrap(),
{
    let name = match raw {
        Some(s) => s,
        None => "unknown"@,
    };
    let f = name.filter(keep_pred());
    name.lemma_filter_len(keep_pred());
    assert forall|i: int| 0 <= i < sanitized(raw).len() implies !is_control_spec(#[trigger] sanitized(raw)[i]) by {
        assert(sanitized(raw)[i] == f[i]);
        name.lemma_filter_pred(keep_pred(), i);
    }
    if let Some(s) = raw {
        if s.len() <= MAX_NAME_CHARS && forall|i: int| 0 <= i < s.len() ==> !is_control_spec(#[trigger] s[i]) {
            lemma_filter_keeps_all(s);
        }
    }
}

/// Filtering a sequence in which every character is kept changes nothing.
proof fn lemma_filter_keeps_all(s: Seq<char>)
    requires
        forall|i: int| 0 <= i < s.len() ==> !is_control_spec(#[trigger] s[i]),
    ensures
        s.filter(keep_pred()) == s,
    decreases s.len(),
{
    reveal(Seq::filter);
    if s.len() > 0 {
        let d = s.drop_last();
        assert forall|i: int| 0 <= i < d.len() implies !is_control_spec(#[trigger] d[i]) by {
            assert(d[i] == s[i]);
        }
        lemma_filter_keeps_all(d);
        assert(!is_control_spec(s[s.len() - 1]));
        assert(d.push(s.last()) =~= s);
    }
}

/// Key events that are not presses of the selected hotkey never toggle.
pub proof fn lemma_only_hotkey_presses_toggle(events: Seq<KeyEvent>, hotkey: u16)
    requires
        forall|i: int| 0 <= i < events.len() ==> !is_hotkey_press_spec(#[trigger] events[i], hotkey),
    ensures
        count_presses(events, hotkey) == 0,
    decreases events.len(),
{
    if events.len() > 0 {
        let d = events.drop_last();
        assert forall|i: int| 0 <= i < d.len() implies !is_hotkey_press_spec(#[trigger] d[i], hotkey) by {
            assert(d[i] == events[i]);
        }
        lemma_only_hotkey_presses_toggle(d, hotkey);
        assert(!is_hotkey_press_spec(events[events.len() - 1], hotkey));
    }
}


/// Hotkey presses change only the activity and the last toggle: they never
/// touch the request to quit, the counter or the settings.
pub proof fn lemma_hotkeys_keep_the_rest(s: AppState, events: Seq<KeyEvent>, hotkey: u16, times: Seq<u128>)
    ensures
        hotkey_run(s, events, hotkey, times).0.should_quit == s.should_quit,
        hotkey_run(s, events, hotkey, times).0.click_count == s.click_count,
        hotkey_run(s, events, hotkey, times).0.settings == s.settings,
    decreases events.len(),
{
    if events.len() > 0 && times.len() == events.len() {
        lemma_hotkeys_keep_the_rest(s, events.drop_last(), hotkey, times.drop_last());
    }
}


/// Hotkey presses handled 100 ms or more apart are all accepted: when the
/// first is accepted and each later one comes at least 100 ms after the one
/// before, every press toggles, the reports alternate from the starting
/// activity, and the last press's reading is the last toggle.
pub proof fn lemma_spaced_presses_all_toggle(s: AppState, events: Seq<KeyEvent>, hotkey: u16, times: Seq<u128>)
    requires
        times.len() == events.len(),
        forall|i: int| 0 <= i < events.len() ==> is_hotkey_press_spec(#[trigger] events[i], hotkey),
        events.len() > 0 ==> s.toggle_accepted(times[0]),
        forall|i: int| 0 < i < times.len() ==> #[trigger] times[i] >= times[i - 1] + crate::app::TOGGLE_DEBOUNCE_NANOS,
    ensures
        ({
            let (post, notes) = hotkey_run(s, events, hotkey, times);
            &&& notes.len() == events.len()
            &&& alternating_from(s.active, notes)
            &&& post.active == (if events.len() % 2 == 0 {
                s.active
            } else {
                !s.active
            })
            &&& events.len() > 0 ==> post.last_toggle == Some(times[times.len() - 1])
        }),
    decreases events.len(),
{
    if events.len() > 0 {
        let n = events.len();
        let ev = events.drop_last();
        let ts = times.drop_last();
        assert forall|i: int| 0 <= i < ev.len() implies is_hotkey_press_spec(#[trigger] ev[i], hotkey) by {
            assert(ev[i] == events[i]);
        }
        assert forall|i: int| 0 < i < ts.len() implies #[trigger] ts[i] >= ts[i - 1] + crate::app::TOGGLE_DEBOUNCE_NANOS by {
            assert(ts[i] == times[i] && ts[i - 1] == times[i - 1]);
        }
        if ev.len() > 0 {
            assert(ts[0] == times[0]);
        }
        lemma_spaced_presses_all_toggle(s, ev, hotkey, ts);
        let (s1, notes1) = hotkey_run(s, ev, hotkey, ts);
        assert(is_hotkey_press_spec(events.last(), hotkey));
        if n > 1 {
            assert(times[n - 1] >= times[n - 2] + crate::app::TOGGLE_DEBOUNCE_NANOS);
            assert(s1.last_toggle == Some(ts[ts.len() - 1]));
            assert(s1.toggle_accepted(times.last()));
        } else {
            assert(s1 == s);
        }
        let notes = notes1.push(!s1.active);
        assert forall|k: int| 0 <= k < notes.len() implies #[trigger] notes[k] == (if k % 2 == 0 {
            !s.active
        } else {
            s.active
        }) by {
            if k < notes1.len() {
                assert(notes[k] == notes1[k]);
            }
        }
    }
}

} // verus!
