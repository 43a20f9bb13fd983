//! Countdown timer: -1 MIN / +1 MIN adjust it while paused, START/PAUSE
//! runs it, and reaching zero stops it and raises an alert.

use vstd::prelude::*;
use crate::apps::{AppInput, AppResult, clock_text};

verus! {

/// Touches below this line hit START/PAUSE.
pub const START_PAUSE_Y: i32 = 345;
/// Touches below this line (above START/PAUSE) hit +1 MIN.
pub const PLUS_MINUTE_Y: i32 = 245;
/// Touches below this line (above +1 MIN) hit -1 MIN.
pub const MINUS_MINUTE_Y: i32 = 145;
/// One minute in milliseconds.
pub const MINUTE_MS: u32 = 60_000;
/// The longest countdown: 99 minutes.
pub const MAX_REMAINING_MS: u32 = 5_940_000;

/// The state of a countdown timer.
pub struct TimerView {
    pub remaining_ms: u32,
    pub running: bool,
    pub alert_pending: bool,
}

/// `a - b`, or zero when `b` is larger.
pub open spec fn saturating_difference(a: u32, b: u32) -> u32 {
    if a < b {
        0
    } else {
        (a - b) as u32
    }
}

impl TimerView {
    /// The state after a frame's touch: START/PAUSE toggles running; while
    /// paused, +1 MIN adds a minute (up to 99 minutes) and -1 MIN takes one
    /// away (down to zero).
    pub open spec fn after_touch(self, input: AppInput) -> TimerView {
        match input.touch {
            Some(point) => {
                if point.y > START_PAUSE_Y {
                    TimerView { running: !self.running, ..self }
                } else if !self.running && point.y > PLUS_MINUTE_Y {
                    TimerView {
                        remaining_ms: if self.remaining_ms + MINUTE_MS > MAX_REMAINING_MS {
                            MAX_REMAINING_MS
                        } else {
                            (self.remaining_ms + MINUTE_MS) as u32
                        },
                        ..self
                    }
                } else if !self.running && point.y > MINUS_MINUTE_Y {
                    TimerView { remaining_ms: saturating_difference(self.remaining_ms, MINUTE_MS), ..self }
                } else {
                    self
                }
            },
            None => self,
        }
    }

    /// The state after a frame: the touch is handled, then a running timer
    /// counts down the frame's milliseconds; reaching zero stops it and
    /// raises the alert.
    pub open spec fn after_input(self, input: AppInput) -> TimerView {
        let touched = self.after_touch(input);
        if touched.running {
            let remaining = saturating_difference(touched.remaining_ms, input.dt_ms);
            if remaining == 0 {
                TimerView { remaining_ms: 0, running: false, alert_pending: true }
            } else {
                TimerView { remaining_ms: remaining, ..touched }
            }
        } else {
            touched
        }
    }

    /// The state after the alert is taken, and whether one was pending.
    pub open spec fn after_take_alert(self) -> (TimerView, bool) {
        (TimerView { alert_pending: false, ..self }, self.alert_pending)
    }
}

/// The "0M:SS" display of `remaining_ms`: the first digit is always 0 and
/// the second is the minutes modulo 10.
pub open spec fn timer_text(remaining_ms: u32) -> Seq<u8> {
    let seconds = remaining_ms / 1000;
    clock_text(0, (seconds / 60 % 10) as int, (seconds % 60 / 10) as int, (seconds % 10) as int)
}

/// A countdown timer. It never holds more than 99 minutes.
pub struct CountdownTimer {
    remaining_ms: u32,
    running: bool,
    alert_pending: bool,
}

impl View for CountdownTimer {
    type V = TimerView;

    closed spec fn view(&self) -> TimerView {
        TimerView {
            remaining_ms: self.remaining_ms,
            running: self.running,
            alert_pending: self.alert_pending,
        }
    }
}

impl CountdownTimer {
    #[verifier::type_invariant]
    closed spec fn within_limit(self) -> bool {
        self.remaining_ms <= MAX_REMAINING_MS
    }

    /// A paused one-minute timer with no alert.
    pub fn new() -> (r: Self)
        ensures
            r@ == (TimerView { remaining_ms: MINUTE_MS, running: false, alert_pending: false }),
    {
        CountdownTimer { remaining_ms: 60_000, running: false, alert_pending: false }
    }

    /// Returns whether an alert is pending, and clears it.
    pub fn take_alert(&mut self) -> (r: bool)
        ensures
            (final(self)@, r) == old(self)@.after_take_alert(),
    {
        proof {
            use_type_invariant(&*self);
        }
        let value = self.alert_pending;
        self.alert_pending = false;
        value
    }

    /// Handles one frame of input (see `TimerView::after_input`).
    pub fn update(&mut self, input: &AppInput) -> (r: AppResult)
        ensures
            final(self)@ == old(self)@.after_input(*input),
            final(self)@.remaining_ms <= MAX_REMAINING_MS,
            r == AppResult::Continue,
    {
        proof {
            use_type_invariant(&*self);
        }
        if let Some(point) = input.touch {
            if point.y > START_PAUSE_Y {
                self.running = !self.running;
            } else if !self.running && point.y > PLUS_MINUTE_Y {
                self.remaining_ms = self.remaining_ms.saturating_add(MINUTE_MS).min(99 * MINUTE_MS);
            } else if !self.running && point.y > MINUS_MINUTE_Y {
                self.remaining_ms = self.remaining_ms.saturating_sub(MINUTE_MS);
            }
        }
        if self.running {
            self.remaining_ms = self.remaining_ms.saturating_sub(input.dt_ms);
            if self.remaining_ms == 0 {
                self.running = false;
                self.alert_pending = true;
            }
        }
        AppResult::Continue
    }

    /// Whether the timer is counting down.
    pub fn is_running(&self) -> (r: bool)
        ensures
            r == self@.running,
    {
        self.running
    }

    /// The remaining time as the text the display shows (see `timer_text`).
    pub fn time_text(&self) -> (r: [u8; 5])
        ensures
            r@ == timer_text(self@.remaining_ms),
    {
        let seconds = self.remaining_ms / 1000;
        let mut time = [0x30u8; 5];
        time[1] = 0x30 + (seconds / 60 % 10) as u8;
        time[2] = 0x3a;
        time[3] = 0x30 + (seconds % 60 / 10) as u8;
        time[4] = 0x30 + (seconds % 10) as u8;
        assert(time@ =~= timer_text(self@.remaining_ms));
        time
    }
}

/// An alert is taken once: taking it twice in a row yields it at most the
/// first time.
pub proof fn lemma_alert_taken_once(v: TimerView)
    ensures
        v.after_take_alert().0.after_take_alert().1 == false,
        v.after_take_alert().1 == v.alert_pending,
{
}

/// The alert is raised exactly when a running countdown reaches zero, and
/// a frame never raises it otherwise.
pub proof fn lemma_alert_when_countdown_ends(v: TimerView, input: AppInput)
    ensures
        v.after_input(input).alert_pending && !v.alert_pending ==> ({
            &&& v.after_touch(input).running
            &&& v.after_touch(input).remaining_ms <= input.dt_ms
            &&& v.after_input(input).remaining_ms == 0
            &&& !v.after_input(input).running
        }),
        v.after_touch(input).running && v.after_touch(input).remaining_ms <= input.dt_ms
            ==> v.after_input(input).alert_pending,
{
}

/// A frame never takes the countdown past 99 minutes.
pub proof fn lemma_countdown_within_limit(v: TimerView, input: AppInput)
    requires
        v.remaining_ms <= MAX_REMAINING_MS,
    ensures
        v.after_input(input).remaining_ms <= MAX_REMAINING_MS,
{
}

/// A touch on START/PAUSE toggles the countdown without changing it: a
/// paused timer starts and counts the frame, a running one pauses and counts
/// nothing that frame.
pub proof fn lemma_start_pause_toggles(v: TimerView, input: AppInput)
    requires
        input.touch matches Some(point) && point.y > START_PAUSE_Y,
    ensures
        v.after_touch(input).running == !v.running,
        v.after_touch(input).remaining_ms == v.remaining_ms,
        v.after_touch(input).alert_pending == v.alert_pending,
        v.running ==> v.after_input(input) == (TimerView { running: false, ..v }),
        !v.running && v.remaining_ms > input.dt_ms ==> v.after_input(input) == (TimerView {
            remaining_ms: (v.remaining_ms - input.dt_ms) as u32,
            running: true,
            ..v
        }),
{
}

/// The timer display reads back the remaining time: "0", the last digit of
/// the whole minutes, a colon, and the two digits of the seconds within the
/// minute.
pub proof fn lemma_timer_text_reads_back(remaining_ms: u32)
    ensures
        ({
            let t = timer_text(remaining_ms);
            &&& t.len() == 5
            &&& forall|i: int| 0 <= i < 5 && i != 2 ==> 0x30 <= #[trigger] t[i] <= 0x39
            &&& t[0] == 0x30
            &&& t[2] == 0x3a
            &&& t[1] - 0x30 == (remaining_ms / 60000) % 10
            &&& (t[3] - 0x30) * 10 + (t[4] - 0x30) == (remaining_ms / 1000) % 60
        }),
{
    let seconds = remaining_ms / 1000;
    assert(seconds / 60 == remaining_ms / 60000) by (nonlinear_arith)
        requires
            seconds == remaining_ms / 1000,
            remaining_ms >= 0,
    {
        vstd::arithmetic::div_mod::lemma_div_denominator(remaining_ms as int, 1000, 60);
    }
    let within = seconds % 60;
    assert((within / 10) * 10 + within % 10 == within) by (nonlinear_arith)
        requires
            within >= 0,
    ;
    assert(seconds % 10 == within % 10) by (nonlinear_arith)
        requires
            within == seconds % 60,
            seconds >= 0,
    {
        vstd::arithmetic::div_mod::lemma_mod_mod(seconds as int, 10, 6);
    }
}

/// While paused, +1 MIN adds one minute (up to 99 minutes) and -1 MIN takes
/// one away (down to zero); while running, both are ignored.
pub proof fn lemma_minute_buttons(v: TimerView, input: AppInput)
    requires
        input.touch matches Some(point) && MINUS_MINUTE_Y < point.y <= START_PAUSE_Y,
    ensures
        v.running ==> v.after_touch(input) == v,
        !v.running && (input.touch matches Some(point) && point.y > PLUS_MINUTE_Y) ==> v.after_input(input)
            == (TimerView {
            remaining_ms: (if v.remaining_ms + 60_000 <= 5_940_000 {
                v.remaining_ms + 60_000
            } else {
                5_940_000int
            }) as u32,
            ..v
        }),
        !v.running && (input.touch matches Some(point) && point.y <= PLUS_MINUTE_Y) ==> v.after_input(input)
            == (TimerView {
            remaining_ms: (if v.remaining_ms >= 60_000 {
                v.remaining_ms - 60_000
            } else {
                0int
            }) as u32,
            ..v
        }),
{
}

/// A running timer with no touch counts the frame down: the remaining time
/// drops by the frame's milliseconds, or, if that reaches zero, it stops at
/// zero with the alert raised.
pub proof fn lemma_running_timer_counts_down(v: TimerView, input: AppInput)
    requires
        v.running,
        input.touch is None,
    ensures
        v.remaining_ms > input.dt_ms ==> v.after_input(input) == (TimerView {
            remaining_ms: (v.remaining_ms - input.dt_ms) as u32,
            ..v
        }),
        v.remaining_ms <= input.dt_ms ==> v.after_input(input) == (TimerView {
            remaining_ms: 0,
            running: false,
            alert_pending: true,
        }),
{
}

} // verus!
