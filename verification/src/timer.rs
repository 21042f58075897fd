//! The timer itself. It keeps no clock: the host calls [`Timer::tick`] once a
//! second while a phase runs, and hands on to its observers the notifications
//! that each operation returns.

use vstd::prelude::*;
use crate::model::{TimerView, clock_minutes, clock_seconds, in_i32, seconds_of};
use crate::state::{TimerState, TimerEvent, is_break, is_running};

verus! {

/// A work/break interval timer.
pub struct Timer {
    state: TimerState,
    previous_state: TimerState,
    session_count: i32,
    work_duration: i32,
    short_break_duration: i32,
    long_break_duration: i32,
    sessions_until_long: i32,
    remaining_seconds: i32,
    total_seconds: i32,
    auto_start_work_after_break: bool,
    use_seconds_mode: bool,
    work_session_just_finished: bool,
}

impl View for Timer {
    type V = TimerView;

    closed spec fn view(&self) -> TimerView {
        TimerView {
            state: self.state,
            previous_state: self.previous_state,
            session_count: self.session_count as int,
            work_duration: self.work_duration as int,
            short_break_duration: self.short_break_duration as int,
            long_break_duration: self.long_break_duration as int,
            sessions_until_long: self.sessions_until_long as int,
            remaining_seconds: self.remaining_seconds as int,
            total_seconds: self.total_seconds as int,
            auto_start_work_after_break: self.auto_start_work_after_break,
            use_seconds_mode: self.use_seconds_mode,
            work_session_just_finished: self.work_session_just_finished,
        }
    }
}

impl Timer {
    /// The timer is in order and its numbers fit their machine types. Every
    /// timer that this module hands out is, and every operation keeps it so.
    pub open spec fn wf(&self) -> bool {
        self@.wf() && self@.fits()
    }

    /// A timer at rest before its first work session, with 25 minutes of
    /// work, breaks of 5 and 15 minutes, and a long break every 4th session.
    pub fn new() -> (timer: Timer)
        ensures
            timer.wf(),
            timer@ == TimerView::initial(),
    {
        let mut timer = Timer {
            state: TimerState::Idle,
            previous_state: TimerState::Idle,
            session_count: 1,
            work_duration: 25,
            short_break_duration: 5,
            long_break_duration: 15,
            sessions_until_long: 4,
            remaining_seconds: 0,
            total_seconds: 0,
            auto_start_work_after_break: true,
            use_seconds_mode: false,
            work_session_just_finished: false,
        };
        timer.remaining_seconds = timer.get_duration_for_state(TimerState::Work);
        timer.total_seconds = timer.remaining_seconds;
        timer
    }

    /// The length in seconds of a phase of the given kind.
    pub fn get_duration_for_state(&self, state: TimerState) -> (seconds: i32)
        requires
            self@.fits(),
        ensures
            seconds == self@.duration_for(state),
    {
        let duration: i32 = match state {
            TimerState::Work => self.work_duration,
            TimerState::ShortBreak => self.short_break_duration,
            TimerState::LongBreak => self.long_break_duration,
            _ => 0,
        };
        if self.use_seconds_mode {
            duration
        } else {
            duration * 60
        }
    }

    /// Whether [`timer_set_durations`] takes these values as the timer is:
    /// all four are positive and each length in seconds fits an `i32`.
    pub fn accepts_durations(
        &self,
        work_duration: i32,
        short_break_duration: i32,
        long_break_duration: i32,
        sessions_until_long: i32,
    ) -> (accepted: bool)
        ensures
            accepted == {
                &&& work_duration > 0
                &&& short_break_duration > 0
                &&& long_break_duration > 0
                &&& sessions_until_long > 0
                &&& in_i32(seconds_of(work_duration as int, self@.use_seconds_mode))
                &&& in_i32(seconds_of(short_break_duration as int, self@.use_seconds_mode))
                &&& in_i32(seconds_of(long_break_duration as int, self@.use_seconds_mode))
            },
    {
        let limit: i32 = if self.use_seconds_mode {
            i32::MAX
        } else {
            i32::MAX / 60
        };
        0 < work_duration && work_duration <= limit && 0 < short_break_duration
            && short_break_duration <= limit && 0 < long_break_duration && long_break_duration
            <= limit && 0 < sessions_until_long
    }

    /// Whether [`timer_set_duration_mode`] takes this mode as the timer is:
    /// each configured length in seconds fits an `i32` under it.
    pub fn accepts_duration_mode(&self, use_seconds: i32) -> (accepted: bool)
        requires
            self.wf(),
        ensures
            accepted == {
                &&& in_i32(seconds_of(self@.work_duration, use_seconds != 0))
                &&& in_i32(seconds_of(self@.short_break_duration, use_seconds != 0))
                &&& in_i32(seconds_of(self@.long_break_duration, use_seconds != 0))
            },
    {
        let limit: i32 = i32::MAX / 60;
        use_seconds != 0 || (self.work_duration <= limit && self.short_break_duration <= limit
            && self.long_break_duration <= limit)
    }

    /// Whether the session count has room for the next tick: it has unless
    /// that tick ends a work phase whose number is the largest `i32`.
    pub fn can_tick(&self) -> (room: bool)
        ensures
            room == (self@.completes_work() ==> self@.session_count < i32::MAX),
    {
        !(self.state == TimerState::Work && self.remaining_seconds <= 1 && self.session_count
            == i32::MAX)
    }

    /// Whether the session count has room for skipping the phase: it has
    /// unless the phase is work and its number is the largest `i32`.
    pub fn can_skip_phase(&self) -> (room: bool)
        ensures
            room == (self@.state == TimerState::Work ==> self@.session_count < i32::MAX),
    {
        !(self.state == TimerState::Work && self.session_count == i32::MAX)
    }

    /// Whether [`timer_extend_break`] takes this amount as the timer is:
    /// during a break, what is left and what the break began with must stay
    /// within an `i32`.
    pub fn can_extend_break(&self, additional_seconds: i32) -> (room: bool)
        ensures
            room == (is_break(self@.state) ==> in_i32(
                self@.remaining_seconds + additional_seconds,
            ) && in_i32(self@.total_seconds + additional_seconds)),
    {
        if self.state == TimerState::ShortBreak || self.state == TimerState::LongBreak {
            self.remaining_seconds.checked_add(additional_seconds).is_some()
                && self.total_seconds.checked_add(additional_seconds).is_some()
        } else {
            true
        }
    }

    /// Moves to `new_state` and notes the change in `events`, unless the
    /// timer is in that phase already.
    fn set_state(&mut self, new_state: TimerState, events: &mut Vec<TimerEvent>)
        ensures
            final(self)@ == old(self)@.set_state(new_state).timer,
            final(events)@ == old(events)@ + old(self)@.set_state(new_state).events,
    {
        if self.state == new_state {
            return ;
        }
        self.state = new_state;
        events.push(TimerEvent::StateChanged(new_state));
    }

    /// Leaves a phase whose countdown has run out.
    fn transition_to_next_state(&mut self, events: &mut Vec<TimerEvent>)
        requires
            old(self).wf(),
            old(self)@.state == TimerState::Work ==> old(self)@.session_count < i32::MAX,
        ensures
            final(self).wf(),
            final(self)@ == old(self)@.transition().timer,
            final(events)@ == old(events)@ + old(self)@.transition().events,
    {
        match self.state {
            TimerState::Work => {
                self.work_session_just_finished = true;
                let next = if self.session_count % self.sessions_until_long == 0 {
                    TimerState::LongBreak
                } else {
                    TimerState::ShortBreak
                };
                // The countdown is wound before the change is noted, so that
                // no observer is shown a phase at 00:00.
                self.remaining_seconds = self.get_duration_for_state(next);
                self.total_seconds = self.remaining_seconds;
                self.set_state(next, events);
                self.session_count = self.session_count + 1;
            },
            TimerState::ShortBreak | TimerState::LongBreak => {
                self.remaining_seconds = self.get_duration_for_state(TimerState::Work);
                self.total_seconds = self.remaining_seconds;
                self.set_state(TimerState::Idle, events);
            },
            _ => {},
        }
    }

    /// One second goes by.
    ///
    /// At rest and in a pause nothing happens and nothing is given out. In a
    /// running phase the countdown drops by one, never below zero, and a
    /// `Tick` is given out with what is left. If nothing is left, a
    /// `SessionComplete` with the phase that ended follows, and then the
    /// `StateChanged` of the move to the next phase.
    pub fn tick(&mut self) -> (events: Vec<TimerEvent>)
        requires
            old(self).wf(),
            old(self)@.completes_work() ==> old(self)@.session_count < i32::MAX,
        ensures
            final(self).wf(),
            final(self)@ == old(self)@.tick().timer,
            events@ == old(self)@.tick().events,
            !is_running(old(self)@.state) ==> final(self)@ == old(self)@ && events@.len() == 0,
    {
        let mut events: Vec<TimerEvent> = Vec::new();
        if self.state == TimerState::Idle || self.state == TimerState::Paused {
            return events;
        }
        if self.remaining_seconds <= 1 {
            self.remaining_seconds = 0;
        } else {
            self.remaining_seconds = self.remaining_seconds - 1;
        }
        let minutes: i32 = self.remaining_seconds / 60;
        let seconds: i32 = self.remaining_seconds % 60;
        events.push(TimerEvent::Tick { minutes, seconds });
        if self.remaining_seconds == 0 {
            let completed_state = self.state;
            events.push(TimerEvent::SessionComplete(completed_state));
            self.transition_to_next_state(&mut events);
        }
        events
    }
}

/// A new timer; see [`Timer::new`].
pub fn timer_new() -> (timer: Timer)
    ensures
        timer.wf(),
        timer@ == TimerView::initial(),
{
    Timer::new()
}

/// Sets the three phase lengths and the cadence of long breaks. The lengths
/// are minutes, or seconds in seconds mode. A phase that is under way keeps
/// the countdown it has.
///
/// All four must be positive, and each length in seconds must fit an `i32`
/// under the mode the timer is in.
pub fn timer_set_durations(
    timer: &mut Timer,
    work_duration: i32,
    short_break_duration: i32,
    long_break_duration: i32,
    sessions_until_long: i32,
)
    requires
        old(timer).wf(),
        work_duration > 0,
        short_break_duration > 0,
        long_break_duration > 0,
        sessions_until_long > 0,
        in_i32(seconds_of(work_duration as int, old(timer)@.use_seconds_mode)),
        in_i32(seconds_of(short_break_duration as int, old(timer)@.use_seconds_mode)),
        in_i32(seconds_of(long_break_duration as int, old(timer)@.use_seconds_mode)),
    ensures
        final(timer).wf(),
        final(timer)@ == old(timer)@.set_durations(
            work_duration as int,
            short_break_duration as int,
            long_break_duration as int,
            sessions_until_long as int,
        ),
{
    timer.work_duration = work_duration;
    timer.short_break_duration = short_break_duration;
    timer.long_break_duration = long_break_duration;
    timer.sessions_until_long = sessions_until_long;
}

/// Starts work from rest, or takes a paused phase up again where it stopped.
/// In any other phase nothing happens and nothing is given out.
pub fn timer_start(timer: &mut Timer) -> (events: Vec<TimerEvent>)
    requires
        old(timer).wf(),
    ensures
        final(timer).wf(),
        final(timer)@ == old(timer)@.start().timer,
        events@ == old(timer)@.start().events,
        is_running(old(timer)@.state) ==> final(timer)@ == old(timer)@ && events@.len() == 0,
{
    let mut events: Vec<TimerEvent> = Vec::new();
    match timer.state {
        TimerState::Idle => {
            timer.set_state(TimerState::Work, &mut events);
            timer.remaining_seconds = timer.get_duration_for_state(TimerState::Work);
            timer.total_seconds = timer.remaining_seconds;
            timer.work_session_just_finished = false;
        },
        TimerState::Paused => {
            let resumed = timer.previous_state;
            timer.set_state(resumed, &mut events);
        },
        _ => {},
    }
    events
}

/// Pauses a running phase. At rest and in a pause nothing happens and nothing
/// is given out.
pub fn timer_pause(timer: &mut Timer) -> (events: Vec<TimerEvent>)
    requires
        old(timer).wf(),
    ensures
        final(timer).wf(),
        final(timer)@ == old(timer)@.pause().timer,
        events@ == old(timer)@.pause().events,
        !is_running(old(timer)@.state) ==> final(timer)@ == old(timer)@ && events@.len() == 0,
{
    let mut events: Vec<TimerEvent> = Vec::new();
    if timer.state != TimerState::Idle && timer.state != TimerState::Paused {
        timer.previous_state = timer.state;
        timer.set_state(TimerState::Paused, &mut events);
    }
    events
}

/// Puts the timer back to rest before the first work session, whatever phase
/// it is in, with the countdown wound for work.
pub fn timer_reset(timer: &mut Timer) -> (events: Vec<TimerEvent>)
    requires
        old(timer).wf(),
    ensures
        final(timer).wf(),
        final(timer)@ == old(timer)@.reset().timer,
        events@ == old(timer)@.reset().events,
        final(timer)@.state == TimerState::Idle,
        final(timer)@.session_count == 1,
        final(timer)@.remaining_seconds == old(timer)@.duration_for(TimerState::Work),
        final(timer)@.total_seconds == old(timer)@.duration_for(TimerState::Work),
{
    let mut events: Vec<TimerEvent> = Vec::new();
    timer.set_state(TimerState::Idle, &mut events);
    timer.session_count = 1;
    timer.remaining_seconds = timer.get_duration_for_state(TimerState::Work);
    timer.total_seconds = timer.remaining_seconds;
    timer.work_session_just_finished = false;
    events
}

/// The phase the timer is in.
pub fn timer_get_state(timer: &Timer) -> (state: TimerState)
    ensures
        state == timer@.state,
{
    timer.state
}

/// The number of the current work session, counted from 1.
pub fn timer_get_session(timer: &Timer) -> (session: i32)
    ensures
        session == timer@.session_count,
{
    timer.session_count
}

/// What is left of the current phase, as whole minutes and the seconds
/// beyond them.
pub fn timer_get_remaining(timer: &Timer) -> (left: (i32, i32))
    ensures
        left.0 == clock_minutes(timer@.remaining_seconds),
        left.1 == clock_seconds(timer@.remaining_seconds),
{
    (timer.remaining_seconds / 60, timer.remaining_seconds % 60)
}

/// The seconds that the current phase began with.
pub fn timer_get_total_duration(timer: &Timer) -> (total: i32)
    ensures
        total == timer@.total_seconds,
{
    timer.total_seconds
}

/// During a break, moves its end by `additional_seconds`: what is left and
/// what the break began with change by the same amount, so the time gone by
/// stays what it was. A negative amount shortens the break, and may leave
/// less than nothing; the next tick then ends it. Outside a break nothing
/// happens.
pub fn timer_extend_break(timer: &mut Timer, additional_seconds: i32)
    requires
        old(timer).wf(),
        is_break(old(timer)@.state) ==> in_i32(old(timer)@.remaining_seconds + additional_seconds)
            && in_i32(old(timer)@.total_seconds + additional_seconds),
    ensures
        final(timer).wf(),
        final(timer)@ == old(timer)@.extend_break(additional_seconds as int),
        is_break(old(timer)@.state) ==> {
            &&& final(timer)@.remaining_seconds == old(timer)@.remaining_seconds
                + additional_seconds
            &&& final(timer)@.total_seconds == old(timer)@.total_seconds + additional_seconds
            &&& final(timer)@.elapsed() == old(timer)@.elapsed()
        },
        !is_break(old(timer)@.state) ==> final(timer)@ == old(timer)@,
{
    if timer.state == TimerState::ShortBreak || timer.state == TimerState::LongBreak {
        timer.remaining_seconds = timer.remaining_seconds + additional_seconds;
        timer.total_seconds = timer.total_seconds + additional_seconds;
    }
}

/// Records whether work is to start by itself after a break. The timer only
/// keeps the flag: a break always ends at rest.
pub fn timer_set_auto_start_work(timer: &mut Timer, auto_start: i32)
    requires
        old(timer).wf(),
    ensures
        final(timer).wf(),
        final(timer)@ == old(timer)@.set_auto_start_work(auto_start != 0),
{
    timer.auto_start_work_after_break = auto_start != 0;
}

/// Chooses whether configured lengths are seconds (`use_seconds` not zero)
/// or minutes. A phase that is under way keeps the countdown it has.
///
/// Each configured length in seconds must fit an `i32` under the new mode.
pub fn timer_set_duration_mode(timer: &mut Timer, use_seconds: i32)
    requires
        old(timer).wf(),
        in_i32(seconds_of(old(timer)@.work_duration, use_seconds != 0)),
        in_i32(seconds_of(old(timer)@.short_break_duration, use_seconds != 0)),
        in_i32(seconds_of(old(timer)@.long_break_duration, use_seconds != 0)),
    ensures
        final(timer).wf(),
        final(timer)@ == old(timer)@.set_duration_mode(use_seconds != 0),
{
    timer.use_seconds_mode = use_seconds != 0;
}

/// Ends a running phase at once: the countdown is put to zero and the phase
/// completes as on its last tick, with the same notifications. At rest and in
/// a pause nothing happens and nothing is given out.
pub fn timer_skip_phase(timer: &mut Timer) -> (events: Vec<TimerEvent>)
    requires
        old(timer).wf(),
        old(timer)@.state == TimerState::Work ==> old(timer)@.session_count < i32::MAX,
    ensures
        final(timer).wf(),
        final(timer)@ == old(timer)@.skip_phase().timer,
        events@ == old(timer)@.skip_phase().events,
        !is_running(old(timer)@.state) ==> final(timer)@ == old(timer)@ && events@.len() == 0,
{
    if timer.state == TimerState::Work || timer.state == TimerState::ShortBreak || timer.state
        == TimerState::LongBreak {
        timer.remaining_seconds = 0;
        timer.tick()
    } else {
        Vec::new()
    }
}

} // verus!
