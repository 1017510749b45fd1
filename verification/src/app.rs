//! The timer engine: interval kinds with their fixed durations, and the
//! state machine that counts down, transitions between intervals and keeps
//! the completed-work counter.

use vstd::prelude::*;

verus! {

/// Length of a Work interval, in milliseconds (25 minutes).
pub const POMODORO_DURATION_MS: i32 = 25 * 60 * 1000;
/// Length of a Short Break interval, in milliseconds (5 minutes).
pub const SHORT_BREAK_DURATION_MS: i32 = 5 * 60 * 1000;
/// Length of a Long Break interval, in milliseconds (15 minutes).
pub const LONG_BREAK_DURATION_MS: i32 = 15 * 60 * 1000;

/// The three interval kinds the timer cycles through.
#[derive(Clone, Copy, PartialEq, Eq, Structural, Debug)]
pub enum PomodoroState {
    Work,
    ShortBreak,
    LongBreak,
}

/// The fixed duration, in milliseconds, of an interval of kind `s`.
pub open spec fn duration_ms_of(s: PomodoroState) -> i32 {
    match s {
        PomodoroState::Work => POMODORO_DURATION_MS,
        PomodoroState::ShortBreak => SHORT_BREAK_DURATION_MS,
        PomodoroState::LongBreak => LONG_BREAK_DURATION_MS,
    }
}

/// The display label of an interval of kind `s`.
pub open spec fn label_of(s: PomodoroState) -> Seq<char> {
    match s {
        PomodoroState::Work => "Work"@,
        PomodoroState::ShortBreak => "Short Break"@,
        PomodoroState::LongBreak => "Long Break"@,
    }
}

/// The kind of break granted after the `n`-th completed Work interval:
/// a Long Break for every fourth completion, a Short Break otherwise.
pub open spec fn break_after(n: int) -> PomodoroState {
    if n % 4 == 0 {
        PomodoroState::LongBreak
    } else {
        PomodoroState::ShortBreak
    }
}

/// Wall-clock milliseconds elapsed between the last reconciliation and
/// `now_ms`. The first tick after a start or resume (`last` is `None`)
/// counts as zero elapsed, and a clock that appears to run backwards is
/// also treated as zero elapsed: the result is never negative.
pub open spec fn elapsed_since(last: Option<u64>, now_ms: u64) -> int {
    match last {
        Option::Some(l) => if now_ms >= l { now_ms - l } else { 0 },
        Option::None => 0,
    }
}

impl PomodoroState {
    /// The fixed duration of this interval kind, in milliseconds.
    pub fn get_duration_ms(&self) -> (d: i32)
        ensures
            d == duration_ms_of(*self),
    {
        match self {
            PomodoroState::Work => POMODORO_DURATION_MS,
            PomodoroState::ShortBreak => SHORT_BREAK_DURATION_MS,
            PomodoroState::LongBreak => LONG_BREAK_DURATION_MS,
        }
    }

    /// The display label of this interval kind.
    pub fn label(&self) -> (s: &'static str)
        ensures
            s@ == label_of(*self),
    {
        match self {
            PomodoroState::Work => "Work",
            PomodoroState::ShortBreak => "Short Break",
            PomodoroState::LongBreak => "Long Break",
        }
    }
}

/// The whole engine state. The host event loop owns one instance and
/// mutates it only through the operations below, dispatched serially.
#[derive(Clone, Copy, Debug)]
pub struct AppState {
    /// Which interval is active now.
    pub state: PomodoroState,
    /// How many Work intervals have fully elapsed or been skipped.
    pub pomodoro_cycles: u64,
    /// Time left in the current interval, in milliseconds.
    pub remaining_ms: i32,
    /// Wall-clock instant (in milliseconds) at which `remaining_ms` was
    /// last reconciled; `None` while not running or freshly transitioned.
    pub last_tick_time: Option<u64>,
}

impl AppState {
    /// The engine invariant: the remaining time always lies within
    /// `[0, duration of the current interval]`.
    pub open spec fn wf(self) -> bool {
        0 <= self.remaining_ms <= duration_ms_of(self.state)
    }

    /// The state the engine is created in: a full Work interval, counter
    /// zero, not running.
    pub open spec fn initial() -> AppState {
        AppState {
            state: PomodoroState::Work,
            pomodoro_cycles: 0,
            remaining_ms: POMODORO_DURATION_MS,
            last_tick_time: Option::None,
        }
    }

    /// One interval transition: leaving Work increments the counter and
    /// grants the break that `break_after` picks; leaving any break returns
    /// to Work with the counter unchanged. The new interval starts with its
    /// full duration; the last-observed instant is untouched here.
    pub open spec fn advance_spec(self) -> AppState {
        if self.state is Work {
            let n = self.pomodoro_cycles + 1;
            AppState {
                state: break_after(n),
                pomodoro_cycles: n as u64,
                remaining_ms: duration_ms_of(break_after(n)),
                last_tick_time: self.last_tick_time,
            }
        } else {
            AppState {
                state: PomodoroState::Work,
                pomodoro_cycles: self.pomodoro_cycles,
                remaining_ms: POMODORO_DURATION_MS,
                last_tick_time: self.last_tick_time,
            }
        }
    }

    /// What `skip_state` leaves behind: the interval transition, with the
    /// last-observed instant cleared (ticking stops).
    pub open spec fn skip_spec(self) -> AppState {
        let a = self.advance_spec();
        AppState {
            state: a.state,
            pomodoro_cycles: a.pomodoro_cycles,
            remaining_ms: a.remaining_ms,
            last_tick_time: Option::None,
        }
    }

    /// What `reset_timer` leaves behind: the same interval and counter,
    /// the full duration restored, the last-observed instant cleared.
    pub open spec fn reset_spec(self) -> AppState {
        AppState {
            state: self.state,
            pomodoro_cycles: self.pomodoro_cycles,
            remaining_ms: duration_ms_of(self.state),
            last_tick_time: Option::None,
        }
    }

    /// What `tick` leaves behind. If the wall-clock time elapsed since the
    /// last reconciliation consumes all remaining time, the remaining time
    /// clamps to zero and the interval transition fires within the same
    /// tick; otherwise only the elapsed time is subtracted and the
    /// reconciliation instant moves to `now_ms`.
    pub open spec fn tick_spec(self, now_ms: u64) -> AppState {
        let e = elapsed_since(self.last_tick_time, now_ms);
        if e >= self.remaining_ms {
            self.skip_spec()
        } else {
            AppState {
                state: self.state,
                pomodoro_cycles: self.pomodoro_cycles,
                remaining_ms: (self.remaining_ms - e) as i32,
                last_tick_time: Option::Some(now_ms),
            }
        }
    }

    /// A fresh engine: Work interval, full duration, counter zero, not
    /// running.
    pub fn new() -> (s: Self)
        ensures
            s == AppState::initial(),
            s.wf(),
    {
        Self {
            state: PomodoroState::Work,
            pomodoro_cycles: 0,
            remaining_ms: POMODORO_DURATION_MS,
            last_tick_time: Option::None,
        }
    }

    /// Restores the current interval's full duration and stops ticking.
    /// The interval kind and the completed-work counter never change here,
    /// so calling this twice in a row yields the same state as calling it
    /// once.
    pub fn reset_timer(&mut self)
        ensures
            *final(self) == old(self).reset_spec(),
            final(self).state == old(self).state,
            final(self).pomodoro_cycles == old(self).pomodoro_cycles,
            final(self).wf(),
    {
        self.remaining_ms = self.state.get_duration_ms();
        self.last_tick_time = None;
    }

    /// Immediately transitions to the next interval, bypassing whatever
    /// time remained, and stops ticking.
    pub fn skip_state(&mut self)
        requires
            old(self).state is Work ==> old(self).pomodoro_cycles < u64::MAX,
        ensures
            *final(self) == old(self).skip_spec(),
            final(self).wf(),
    {
        self.next_state_and_update_ui();
        self.last_tick_time = None;
    }

    /// Advances the countdown by the wall-clock time elapsed since the last
    /// reconciliation, taking `now_ms` as the current wall-clock reading in
    /// milliseconds. When the remaining time runs out, the interval
    /// transition fires in the same call; no negative remaining time is
    /// ever observable.
    pub fn tick(&mut self, now_ms: u64)
        requires
            old(self).wf(),
            (old(self).state is Work
                && elapsed_since(old(self).last_tick_time, now_ms) >= old(self).remaining_ms)
                ==> old(self).pomodoro_cycles < u64::MAX,
        ensures
            *final(self) == old(self).tick_spec(now_ms),
            final(self).wf(),
    {
        let elapsed: u64 = match self.last_tick_time {
            Some(last) => if now_ms >= last { now_ms - last } else { 0 },
            None => 0,
        };
        self.last_tick_time = Some(now_ms);
        if elapsed >= self.remaining_ms as u64 {
            self.remaining_ms = 0;
            self.skip_state();
        } else {
            self.remaining_ms = self.remaining_ms - elapsed as i32;
        }
    }

    /// The remaining time as the UI surface displays it: whole seconds,
    /// the floor of the internal millisecond value.
    pub fn update_ui(&self) -> (remaining_secs: i32)
        requires
            self.wf(),
        ensures
            remaining_secs == self.remaining_ms / 1000,
    {
        self.remaining_ms / 1000
    }

    /// The interval transition itself: leaving Work increments the counter
    /// and picks Long Break exactly when the new count is a multiple of
    /// four; leaving a break returns to Work. The new interval starts with
    /// its full duration.
    pub fn next_state_and_update_ui(&mut self)
        requires
            old(self).state is Work ==> old(self).pomodoro_cycles < u64::MAX,
        ensures
            *final(self) == old(self).advance_spec(),
            final(self).wf(),
    {
        if self.state == PomodoroState::Work {
            self.pomodoro_cycles = self.pomodoro_cycles + 1;
            if self.pomodoro_cycles % 4 == 0 {
                self.state = PomodoroState::LongBreak;
            } else {
                self.state = PomodoroState::ShortBreak;
            }
        } else {
            self.state = PomodoroState::Work;
        }
        self.remaining_ms = self.state.get_duration_ms();
    }
}

/// The break pattern: the `n`-th completed Work interval is followed by a
/// Long Break exactly when `n` is a multiple of four, by a Short Break
/// otherwise, and the pattern repeats with period four indefinitely.
pub proof fn lemma_break_pattern(n: int)
    requires
        1 <= n,
    ensures
        break_after(n) is LongBreak <==> n % 4 == 0,
        break_after(n) is ShortBreak <==> n % 4 != 0,
        break_after(n + 4) == break_after(n),
{
    assert((n + 4) % 4 == n % 4) by (nonlinear_arith);
}

/// The completed-work counter increases by exactly one each time the
/// engine transitions away from Work, and never otherwise; leaving Work
/// always enters a break, and leaving a break always enters Work.
pub proof fn lemma_counter_tracks_work_completions(s: AppState)
    requires
        s.state is Work ==> s.pomodoro_cycles < u64::MAX,
    ensures
        s.state is Work ==> s.advance_spec().state != PomodoroState::Work
            && s.advance_spec().pomodoro_cycles == s.pomodoro_cycles + 1,
        s.state !is Work ==> s.advance_spec().state is Work
            && s.advance_spec().pomodoro_cycles == s.pomodoro_cycles,
{
}

/// How one tick moves the counter and the interval: while time remains,
/// neither changes; when the remaining time runs out, the transition fires,
/// and the counter grows by one exactly when the interval left was Work.
pub proof fn lemma_tick_transitions(s: AppState, now_ms: u64)
    requires
        s.state is Work ==> s.pomodoro_cycles < u64::MAX,
    ensures
        elapsed_since(s.last_tick_time, now_ms) < s.remaining_ms
            ==> s.tick_spec(now_ms).state == s.state
                && s.tick_spec(now_ms).pomodoro_cycles == s.pomodoro_cycles,
        elapsed_since(s.last_tick_time, now_ms) >= s.remaining_ms && s.state is Work
            ==> s.tick_spec(now_ms).state != PomodoroState::Work
                && s.tick_spec(now_ms).pomodoro_cycles == s.pomodoro_cycles + 1,
        elapsed_since(s.last_tick_time, now_ms) >= s.remaining_ms && s.state !is Work
            ==> s.tick_spec(now_ms).state is Work
                && s.tick_spec(now_ms).pomodoro_cycles == s.pomodoro_cycles,
{
}

/// Skipping depends only on the interval kind and the counter: two states
/// that agree on those — however much time has elapsed in each, and whether
/// or not they are running — skip to identical states.
pub proof fn lemma_skip_independent_of_elapsed(a: AppState, b: AppState)
    requires
        a.state == b.state,
        a.pomodoro_cycles == b.pomodoro_cycles,
    ensures
        a.skip_spec() == b.skip_spec(),
{
}

/// Skipping immediately after a reset behaves identically to skipping from
/// any other point in the same interval.
pub proof fn lemma_skip_after_reset(s: AppState)
    ensures
        s.reset_spec().skip_spec() == s.skip_spec(),
{
}

/// Resetting is idempotent: a second reset in a row changes nothing.
pub proof fn lemma_reset_idempotent(s: AppState)
    ensures
        s.reset_spec().reset_spec() == s.reset_spec(),
{
}

} // verus!
