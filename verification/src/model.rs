//! The timer as a mathematical object: its state as a record of integers and
//! flags, and each operation as a function from one state to the next state
//! and the notifications given out on the way.

use vstd::prelude::*;
use crate::state::{TimerState, TimerEvent, is_running, is_break};

verus! {

/// Whole minutes in `t` seconds, rounded toward zero.
pub open spec fn clock_minutes(t: int) -> int {
    if t >= 0 {
        t / 60
    } else {
        -((-t) / 60)
    }
}

/// The seconds of `t` beyond its whole minutes; carries the sign of `t`.
pub open spec fn clock_seconds(t: int) -> int {
    if t >= 0 {
        t % 60
    } else {
        -((-t) % 60)
    }
}

/// The tick notification for a phase with `left` seconds to go.
pub open spec fn tick_event(left: int) -> TimerEvent {
    TimerEvent::Tick { minutes: clock_minutes(left) as i32, seconds: clock_seconds(left) as i32 }
}

/// Whether `x` can be held in an `i32`.
pub open spec fn in_i32(x: int) -> bool {
    i32::MIN <= x <= i32::MAX
}

/// A configured duration in seconds: taken as it is in seconds mode, as
/// minutes otherwise.
pub open spec fn seconds_of(duration: int, use_seconds: bool) -> int {
    if use_seconds {
        duration
    } else {
        duration * 60
    }
}

/// The state of a timer.
pub struct TimerView {
    pub state: TimerState,
    /// The phase that was active when the timer was last paused.
    pub previous_state: TimerState,
    /// The number of the current work session, counted from 1.
    pub session_count: int,
    pub work_duration: int,
    pub short_break_duration: int,
    pub long_break_duration: int,
    /// Every so many work sessions the break is a long one.
    pub sessions_until_long: int,
    pub remaining_seconds: int,
    pub total_seconds: int,
    pub auto_start_work_after_break: bool,
    /// Durations are configured in seconds rather than in minutes.
    pub use_seconds_mode: bool,
    /// Set when a work phase runs out, cleared when one begins.
    pub work_session_just_finished: bool,
}

/// The outcome of one operation: the new state and the notifications, first
/// to last.
pub struct Step {
    pub timer: TimerView,
    pub events: Seq<TimerEvent>,
}

impl TimerView {
    /// The state of a timer that was just made.
    pub open spec fn initial() -> TimerView {
        TimerView {
            state: TimerState::Idle,
            previous_state: TimerState::Idle,
            session_count: 1,
            work_duration: 25,
            short_break_duration: 5,
            long_break_duration: 15,
            sessions_until_long: 4,
            remaining_seconds: 1500,
            total_seconds: 1500,
            auto_start_work_after_break: true,
            use_seconds_mode: false,
            work_session_just_finished: false,
        }
    }

    /// What every timer keeps true of itself: durations and cadence are
    /// positive, sessions are counted from 1, and a paused timer remembers a
    /// running phase.
    pub open spec fn wf(self) -> bool {
        &&& 0 < self.work_duration
        &&& 0 < self.short_break_duration
        &&& 0 < self.long_break_duration
        &&& 0 < self.sessions_until_long
        &&& 1 <= self.session_count
        &&& self.state == TimerState::Paused ==> is_running(self.previous_state)
    }

    /// Every number of the timer, and every configured duration in seconds,
    /// can be held in an `i32`.
    pub open spec fn fits(self) -> bool {
        &&& in_i32(self.session_count)
        &&& in_i32(self.sessions_until_long)
        &&& in_i32(self.remaining_seconds)
        &&& in_i32(self.total_seconds)
        &&& in_i32(self.work_duration)
        &&& in_i32(self.short_break_duration)
        &&& in_i32(self.long_break_duration)
        &&& in_i32(seconds_of(self.work_duration, self.use_seconds_mode))
        &&& in_i32(seconds_of(self.short_break_duration, self.use_seconds_mode))
        &&& in_i32(seconds_of(self.long_break_duration, self.use_seconds_mode))
    }

    /// The countdown is on time: what is left is not below zero and not
    /// above what the phase began with.
    pub open spec fn on_time(self) -> bool {
        0 <= self.remaining_seconds <= self.total_seconds
    }

    /// Seconds of the current phase that have gone by.
    pub open spec fn elapsed(self) -> int {
        self.total_seconds - self.remaining_seconds
    }

    /// The length in seconds of a phase of the given kind; zero for a kind
    /// that has no countdown.
    pub open spec fn duration_for(self, state: TimerState) -> int {
        let configured = match state {
            TimerState::Work => self.work_duration,
            TimerState::ShortBreak => self.short_break_duration,
            TimerState::LongBreak => self.long_break_duration,
            _ => 0,
        };
        seconds_of(configured, self.use_seconds_mode)
    }

    /// The same timer at the start of a countdown for a phase of the given
    /// kind. The phase itself is not changed.
    pub open spec fn wound_for(self, state: TimerState) -> TimerView {
        TimerView {
            remaining_seconds: self.duration_for(state),
            total_seconds: self.duration_for(state),
            ..self
        }
    }

    /// Moves to `new_state`, with a notification unless the timer is there
    /// already.
    pub open spec fn set_state(self, new_state: TimerState) -> Step {
        if self.state == new_state {
            Step { timer: self, events: Seq::empty() }
        } else {
            Step {
                timer: TimerView { state: new_state, ..self },
                events: seq![TimerEvent::StateChanged(new_state)],
            }
        }
    }

    pub open spec fn set_durations(
        self,
        work: int,
        short_break: int,
        long_break: int,
        sessions_until_long: int,
    ) -> TimerView {
        TimerView {
            work_duration: work,
            short_break_duration: short_break,
            long_break_duration: long_break,
            sessions_until_long: sessions_until_long,
            ..self
        }
    }

    pub open spec fn set_duration_mode(self, use_seconds: bool) -> TimerView {
        TimerView { use_seconds_mode: use_seconds, ..self }
    }

    pub open spec fn set_auto_start_work(self, auto_start: bool) -> TimerView {
        TimerView { auto_start_work_after_break: auto_start, ..self }
    }

    /// From rest, begins a work phase; from a pause, goes back to the phase
    /// that was paused, its countdown untouched; otherwise nothing.
    pub open spec fn start(self) -> Step {
        match self.state {
            TimerState::Idle => Step {
                timer: TimerView {
                    state: TimerState::Work,
                    work_session_just_finished: false,
                    ..self.wound_for(TimerState::Work)
                },
                events: seq![TimerEvent::StateChanged(TimerState::Work)],
            },
            TimerState::Paused => self.set_state(self.previous_state),
            _ => Step { timer: self, events: Seq::empty() },
        }
    }

    /// Pauses a running phase and remembers which one it was; otherwise
    /// nothing.
    pub open spec fn pause(self) -> Step {
        if is_running(self.state) {
            Step {
                timer: TimerView {
                    state: TimerState::Paused,
                    previous_state: self.state,
                    ..self
                },
                events: seq![TimerEvent::StateChanged(TimerState::Paused)],
            }
        } else {
            Step { timer: self, events: Seq::empty() }
        }
    }

    /// Back to rest before the first work session, whatever the phase.
    pub open spec fn reset(self) -> Step {
        Step {
            timer: TimerView {
                state: TimerState::Idle,
                session_count: 1,
                work_session_just_finished: false,
                ..self.wound_for(TimerState::Work)
            },
            events: self.set_state(TimerState::Idle).events,
        }
    }

    /// The break that follows the current work session: a long one when the
    /// session's number is a multiple of the cadence.
    pub open spec fn break_due(self) -> TimerState {
        if self.session_count % self.sessions_until_long == 0 {
            TimerState::LongBreak
        } else {
            TimerState::ShortBreak
        }
    }

    /// The phase that follows the current one when its countdown runs out.
    pub open spec fn next_state(self) -> TimerState {
        match self.state {
            TimerState::Work => self.break_due(),
            TimerState::ShortBreak | TimerState::LongBreak => TimerState::Idle,
            _ => self.state,
        }
    }

    /// What happens when the countdown of the current phase has run out. A
    /// work phase leads to its break and the next session's number; a break
    /// leads to rest, with the countdown wound for the work to come.
    pub open spec fn transition(self) -> Step {
        match self.state {
            TimerState::Work => Step {
                timer: TimerView {
                    state: self.break_due(),
                    session_count: self.session_count + 1,
                    work_session_just_finished: true,
                    ..self.wound_for(self.break_due())
                },
                events: seq![TimerEvent::StateChanged(self.break_due())],
            },
            TimerState::ShortBreak | TimerState::LongBreak => Step {
                timer: TimerView { state: TimerState::Idle, ..self.wound_for(TimerState::Work) },
                events: seq![TimerEvent::StateChanged(TimerState::Idle)],
            },
            _ => Step { timer: self, events: Seq::empty() },
        }
    }

    /// Whether the next tick ends a work phase.
    pub open spec fn completes_work(self) -> bool {
        self.state == TimerState::Work && self.remaining_seconds <= 1
    }

    /// What one more second leaves of the countdown; never below zero.
    pub open spec fn seconds_after_tick(self) -> int {
        if self.remaining_seconds <= 1 {
            0
        } else {
            self.remaining_seconds - 1
        }
    }

    /// One second goes by. At rest and in a pause nothing happens. In a
    /// running phase the countdown drops by one and a tick is given out; if
    /// that brings it to zero, the end of the phase is given out next, and
    /// then the timer moves on.
    pub open spec fn tick(self) -> Step {
        if !is_running(self.state) {
            Step { timer: self, events: Seq::empty() }
        } else {
            let left = self.seconds_after_tick();
            let ticked = TimerView { remaining_seconds: left, ..self };
            if left == 0 {
                Step {
                    timer: ticked.transition().timer,
                    events: seq![tick_event(left), TimerEvent::SessionComplete(self.state)]
                        + ticked.transition().events,
                }
            } else {
                Step { timer: ticked, events: seq![tick_event(left)] }
            }
        }
    }

    /// Ends a running phase at once, as its last tick would; otherwise
    /// nothing.
    pub open spec fn skip_phase(self) -> Step {
        if is_running(self.state) {
            TimerView { remaining_seconds: 0, ..self }.tick()
        } else {
            Step { timer: self, events: Seq::empty() }
        }
    }

    /// During a break, moves its end by `additional_seconds`, which may be
    /// negative; otherwise nothing.
    pub open spec fn extend_break(self, additional_seconds: int) -> TimerView {
        if is_break(self.state) {
            TimerView {
                remaining_seconds: self.remaining_seconds + additional_seconds,
                total_seconds: self.total_seconds + additional_seconds,
                ..self
            }
        } else {
            self
        }
    }
}

/// An operation on a timer, with its arguments.
pub enum Command {
    SetDurations { work: int, short_break: int, long_break: int, sessions_until_long: int },
    SetDurationMode { use_seconds: bool },
    SetAutoStartWork { auto_start: bool },
    Start,
    Pause,
    Reset,
    SkipPhase,
    ExtendBreak { additional_seconds: int },
    Tick,
}

impl Command {
    /// Whether the operation may be asked for: durations and cadence that
    /// are set must be positive.
    pub open spec fn allowed(self) -> bool {
        self matches Command::SetDurations { work, short_break, long_break, sessions_until_long }
            ==> 0 < work && 0 < short_break && 0 < long_break && 0 < sessions_until_long
    }
}

impl TimerView {
    /// The outcome of an operation.
    pub open spec fn apply(self, command: Command) -> Step {
        match command {
            Command::SetDurations { work, short_break, long_break, sessions_until_long } => Step {
                timer: self.set_durations(work, short_break, long_break, sessions_until_long),
                events: Seq::empty(),
            },
            Command::SetDurationMode { use_seconds } => Step {
                timer: self.set_duration_mode(use_seconds),
                events: Seq::empty(),
            },
            Command::SetAutoStartWork { auto_start } => Step {
                timer: self.set_auto_start_work(auto_start),
                events: Seq::empty(),
            },
            Command::Start => self.start(),
            Command::Pause => self.pause(),
            Command::Reset => self.reset(),
            Command::SkipPhase => self.skip_phase(),
            Command::ExtendBreak { additional_seconds } => Step {
                timer: self.extend_break(additional_seconds),
                events: Seq::empty(),
            },
            Command::Tick => self.tick(),
        }
    }
}

} // verus!
