//! Stopwatch: a START/PAUSE button counts elapsed time, RESET clears it
//! while paused.

use vstd::prelude::*;
use crate::apps::{AppInput, AppResult, clock_text};

verus! {

/// Touches below this line hit the START/PAUSE button.
pub const START_PAUSE_Y: i32 = 330;
/// Touches below this line (and above the START/PAUSE line) hit RESET.
pub const RESET_Y: i32 = 230;

/// `a + b`, or `u32::MAX` when the sum does not fit.
pub open spec fn saturating_sum(a: u32, b: u32) -> u32 {
    if a + b > u32::MAX {
        u32::MAX
    } else {
        (a + b) as u32
    }
}

/// The state of a stopwatch.
pub struct StopwatchView {
    pub elapsed_ms: u32,
    pub running: bool,
}

impl StopwatchView {
    /// The state after a frame's touch is handled, before time is counted:
    /// a touch on START/PAUSE toggles running; a touch on RESET clears the
    /// elapsed time, but only while paused.
    pub open spec fn after_touch(self, input: AppInput) -> StopwatchView {
        match input.touch {
            Some(point) => {
                if point.y > START_PAUSE_Y {
                    StopwatchView { running: !self.running, ..self }
                } else if point.y > RESET_Y && !self.running {
                    StopwatchView { elapsed_ms: 0, ..self }
                } else {
                    self
                }
            },
            None => self,
        }
    }

    /// The state after a frame: the touch is handled, then a running
    /// stopwatch counts the frame's milliseconds (stopping at `u32::MAX`).
    pub open spec fn after_input(self, input: AppInput) -> StopwatchView {
        let touched = self.after_touch(input);
        if touched.running {
            StopwatchView { elapsed_ms: saturating_sum(touched.elapsed_ms, input.dt_ms), ..touched }
        } else {
            touched
        }
    }
}

/// The "MM:SS" display of `elapsed_ms`; minutes past 99 show modulo 100.
pub open spec fn stopwatch_text(elapsed_ms: u32) -> Seq<u8> {
    let total = elapsed_ms / 1000;
    let minutes = total / 60;
    let seconds = total % 60;
    clock_text((minutes / 10 % 10) as int, (minutes % 10) as int, (seconds / 10) as int, (seconds % 10) as int)
}

/// A stopwatch.
pub struct Stopwatch {
    elapsed_ms: u32,
    running: bool,
}

impl View for Stopwatch {
    type V = StopwatchView;

    closed spec fn view(&self) -> StopwatchView {
        StopwatchView { elapsed_ms: self.elapsed_ms, running: self.running }
    }
}

impl Stopwatch {
    /// A paused stopwatch at zero.
    pub fn new() -> (r: Self)
        ensures
            r@ == (StopwatchView { elapsed_ms: 0, running: false }),
    {
        Stopwatch { elapsed_ms: 0, running: false }
    }

    /// Handles one frame of input (see `StopwatchView::after_input`).
    pub fn update(&mut self, input: &AppInput) -> (r: AppResult)
        ensures
            final(self)@ == old(self)@.after_input(*input),
            r == AppResult::Continue,
    {
        if let Some(point) = input.touch {
            if point.y > START_PAUSE_Y {
                self.running = !self.running;
            } else if point.y > RESET_Y && !self.running {
                self.elapsed_ms = 0;
            }
        }
        if self.running {
            self.elapsed_ms = self.elapsed_ms.saturating_add(input.dt_ms);
        }
        AppResult::Continue
    }

    /// Whether the stopwatch is counting.
    pub fn is_running(&self) -> (r: bool)
        ensures
            r == self@.running,
    {
        self.running
    }

    /// The elapsed time as the "MM:SS" text the display shows.
    pub fn time_text(&self) -> (r: [u8; 5])
        ensures
            r@ == stopwatch_text(self@.elapsed_ms),
    {
        let total = self.elapsed_ms / 1000;
        let minutes = total / 60;
        let seconds = total % 60;
        let mut time = [0x30u8; 5];
        time[0] = 0x30 + (minutes / 10 % 10) as u8;
        time[1] = 0x30 + (minutes % 10) as u8;
        time[2] = 0x3a;
        time[3] = 0x30 + (seconds / 10) as u8;
        time[4] = 0x30 + (seconds % 10) as u8;
        assert(time@ =~= stopwatch_text(self@.elapsed_ms));
        time
    }
}

/// A running stopwatch never loses time: RESET is ignored while it runs,
/// so after any frame its elapsed time is at least what it was.
pub proof fn lemma_running_stopwatch_never_loses_time(v: StopwatchView, input: AppInput)
    requires
        v.running,
    ensures
        v.after_input(input).elapsed_ms >= v.elapsed_ms,
{
}

/// A touch on START/PAUSE never changes the elapsed time: pausing keeps it,
/// and starting again resumes counting from it (up to `u32::MAX`).
pub proof fn lemma_start_pause_keeps_time(v: StopwatchView, input: AppInput)
    requires
        input.touch matches Some(point) && point.y > START_PAUSE_Y,
    ensures
        v.after_touch(input).elapsed_ms == v.elapsed_ms,
        v.after_touch(input).running == !v.running,
        v.after_input(input).running == !v.running,
        v.after_input(input).elapsed_ms == (if v.running {
            v.elapsed_ms as int
        } else if v.elapsed_ms + input.dt_ms > u32::MAX {
            u32::MAX as int
        } else {
            v.elapsed_ms + input.dt_ms
        }),
{
}

/// Only RESET, while paused, takes time away: in every other frame the
/// elapsed time does not decrease, and RESET while paused clears it.
pub proof fn lemma_only_reset_clears(v: StopwatchView, input: AppInput)
    ensures
        !(input.touch matches Some(point) && RESET_Y < point.y <= START_PAUSE_Y && !v.running)
            ==> v.after_input(input).elapsed_ms >= v.elapsed_ms,
        (input.touch matches Some(point) && RESET_Y < point.y <= START_PAUSE_Y && !v.running)
            ==> v.after_input(input) == (StopwatchView { elapsed_ms: 0, running: false }),
{
}

/// The stopwatch display reads back the elapsed time: its first two
/// characters are the decimal digits of the whole minutes (modulo 100), then
/// a colon, then the two digits of the seconds within the minute.
pub proof fn lemma_stopwatch_text_reads_back(elapsed_ms: u32)
    ensures
        ({
            let t = stopwatch_text(elapsed_ms);
            &&& t.len() == 5
            &&& forall|i: int| 0 <= i < 5 && i != 2 ==> 0x30 <= #[trigger] t[i] <= 0x39
            &&& t[2] == 0x3a
            &&& (t[0] - 0x30) * 10 + (t[1] - 0x30) == (elapsed_ms / 60000) % 100
            &&& (t[3] - 0x30) * 10 + (t[4] - 0x30) == (elapsed_ms / 1000) % 60
        }),
{
    let total = elapsed_ms / 1000;
    let minutes = total / 60;
    let seconds = total % 60;
    assert(minutes == elapsed_ms / 60000) by (nonlinear_arith)
        requires
            total == elapsed_ms / 1000,
            minutes == total / 60,
            elapsed_ms >= 0,
    {
        vstd::arithmetic::div_mod::lemma_div_denominator(elapsed_ms as int, 1000, 60);
    }
    assert((minutes / 10 % 10) * 10 + minutes % 10 == minutes % 100) by (nonlinear_arith)
        requires
            minutes >= 0,
    {
        vstd::arithmetic::div_mod::lemma_breakdown(minutes as int, 10, 10);
        vstd::arithmetic::div_mod::lemma_mod_breakdown(minutes as int, 10, 10);
    }
    assert((seconds / 10) * 10 + seconds % 10 == seconds) by (nonlinear_arith)
        requires
            seconds >= 0,
    ;
}

/// A running stopwatch with no touch counts the frame: the elapsed time
/// grows by the frame's milliseconds, stopping at `u32::MAX`; a paused one
/// with no touch does not change.
pub proof fn lemma_untouched_frame_counts(v: StopwatchView, input: AppInput)
    requires
        input.touch is None,
    ensures
        v.running ==> v.after_input(input).elapsed_ms == (if v.elapsed_ms + input.dt_ms > u32::MAX {
            u32::MAX as int
        } else {
            v.elapsed_ms + input.dt_ms
        }),
        v.after_input(input).running == v.running,
        !v.running ==> v.after_input(input) == v,
{
}

} // verus!
