//! The phases a timer moves through and the notifications it gives out.

use vstd::prelude::*;

verus! {

/// The phase a timer is in.
#[derive(Debug, Clone, Copy, PartialEq, Eq, Structural)]
pub enum TimerState {
    Idle,
    Work,
    ShortBreak,
    LongBreak,
    Paused,
}

/// A notification that a timer operation gives out. An operation hands its
/// notifications back in the order in which they are to reach observers.
#[derive(Debug, Clone, Copy, PartialEq, Eq, Structural)]
pub enum TimerEvent {
    /// The phase changed; carries the new phase.
    StateChanged(TimerState),
    /// One second went by; carries what is left of the phase.
    Tick { minutes: i32, seconds: i32 },
    /// A phase ran down to zero; carries the phase that just ended.
    SessionComplete(TimerState),
}

/// Whether a countdown runs in this phase.
pub open spec fn is_running(state: TimerState) -> bool {
    state == TimerState::Work || state == TimerState::ShortBreak || state == TimerState::LongBreak
}

/// Whether this phase is one of the two breaks.
pub open spec fn is_break(state: TimerState) -> bool {
    state == TimerState::ShortBreak || state == TimerState::LongBreak
}

/// The number by which hosts outside Rust know a phase.
pub open spec fn state_code(state: TimerState) -> int {
    match state {
        TimerState::Idle => 0,
        TimerState::Work => 1,
        TimerState::ShortBreak => 2,
        TimerState::LongBreak => 3,
        TimerState::Paused => 4,
    }
}

impl TimerState {
    /// The phase's number.
    pub fn code(self) -> (c: u32)
        ensures
            c == state_code(self),
    {
        match self {
            TimerState::Idle => 0,
            TimerState::Work => 1,
            TimerState::ShortBreak => 2,
            TimerState::LongBreak => 3,
            TimerState::Paused => 4,
        }
    }

    /// The phase with the given number, if there is one.
    pub fn from_code(code: u32) -> (r: Option<TimerState>)
        ensures
            code <= 4 <==> r is Some,
            r matches Some(state) ==> state_code(state) == code,
    {
        if code == 0 {
            Some(TimerState::Idle)
        } else if code == 1 {
            Some(TimerState::Work)
        } else if code == 2 {
            Some(TimerState::ShortBreak)
        } else if code == 3 {
            Some(TimerState::LongBreak)
        } else if code == 4 {
            Some(TimerState::Paused)
        } else {
            None
        }
    }

    /// Whether a countdown runs in this phase.
    pub fn is_running(self) -> (r: bool)
        ensures
            r == is_running(self),
    {
        match self {
            TimerState::Work | TimerState::ShortBreak | TimerState::LongBreak => true,
            _ => false,
        }
    }
}

} // verus!
