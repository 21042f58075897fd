//! What holds of the timer over whole runs: several operations in a row,
//! many ticks, every operation at once.

use vstd::prelude::*;
use vstd::arithmetic::div_mod::{lemma_mod_self_0, lemma_small_mod};
use crate::model::{Command, Step, TimerView, tick_event};
use crate::state::{TimerEvent, TimerState, is_break, is_running};

verus! {

// Definitions

/// The notifications of a change of phase among `events`, in their order.
pub open spec fn state_changes(events: Seq<TimerEvent>) -> Seq<TimerEvent> {
    events.filter(|event: TimerEvent| event is StateChanged)
}

/// A notification about a phase, as opposed to a tick.
pub open spec fn is_phase_event(event: TimerEvent) -> bool {
    !(event is Tick)
}

/// The notifications about phases among `events`, in their order.
pub open spec fn phase_events(events: Seq<TimerEvent>) -> Seq<TimerEvent> {
    events.filter(|event: TimerEvent| is_phase_event(event))
}

/// `n` ticks in a row: the state they leave and all they give out.
pub open spec fn run_ticks(m: TimerView, n: nat) -> Step
    decreases n,
{
    if n == 0 {
        Step { timer: m, events: Seq::empty() }
    } else {
        let first = m.tick();
        let rest = run_ticks(first.timer, (n - 1) as nat);
        Step { timer: rest.timer, events: first.events + rest.events }
    }
}

/// The number of ticks that end the current phase: as many as there are
/// seconds left, and one where none is left.
pub open spec fn ticks_to_go(m: TimerView) -> nat {
    if m.remaining_seconds >= 1 {
        m.remaining_seconds as nat
    } else {
        1
    }
}

/// The timer after its current phase was ticked down to its end.
pub open spec fn finish_phase(m: TimerView) -> TimerView {
    run_ticks(m, ticks_to_go(m)).timer
}

/// One round from rest: work is started and ticked down, then the break that
/// follows is ticked down.
pub open spec fn round(m: TimerView) -> TimerView {
    finish_phase(finish_phase(m.start().timer))
}

/// `k` rounds in a row.
pub open spec fn rounds(m: TimerView, k: nat) -> TimerView
    decreases k,
{
    if k == 0 {
        m
    } else {
        round(rounds(m, (k - 1) as nat))
    }
}

/// The phase that the `k`-th work session from `m` leads to when it is
/// ticked down, `k` counted from 1.
pub open spec fn phase_after_session(m: TimerView, k: nat) -> TimerState {
    finish_phase(rounds(m, (k - 1) as nat).start().timer).state
}

/// The operations of `commands` one after the other: the state they leave
/// and all they give out.
pub open spec fn apply_all(m: TimerView, commands: Seq<Command>) -> Step
    decreases commands.len(),
{
    if commands.len() == 0 {
        Step { timer: m, events: Seq::empty() }
    } else {
        let before = apply_all(m, commands.drop_last());
        let last = before.timer.apply(commands.last());
        Step { timer: last.timer, events: before.events + last.events }
    }
}

// One operation

/// A new timer is in order and on time.
pub proof fn initial_in_order()
    ensures
        TimerView::initial().wf(),
        TimerView::initial().fits(),
        TimerView::initial().on_time(),
        TimerView::initial().state == TimerState::Idle,
        TimerView::initial().session_count == 1,
{
}

/// Every operation leaves a timer that is in order in order.
pub proof fn order_is_kept(m: TimerView, command: Command)
    requires
        m.wf(),
        command.allowed(),
    ensures
        m.apply(command).timer.wf(),
{
}

/// The session count moves in two ways only: a reset puts it back to 1, and
/// the end of a work phase, by tick or by skip, takes it one further.
pub proof fn session_count_moves_on_work_end_or_reset(m: TimerView, command: Command)
    ensures
        ({
            let after = m.apply(command).timer;
            ||| after.session_count == m.session_count
            ||| command is Reset && after.session_count == 1
            ||| (command is Tick || command is SkipPhase) && m.state == TimerState::Work
                && is_break(after.state) && after.session_count == m.session_count + 1
        }),
{
}

/// The phase moves along these edges only: start takes rest to work and a
/// pause back to the phase that was paused; pause takes a running phase to
/// a pause; reset leads to rest; the end of work, by tick or by skip, leads
/// to the break that is due, and the end of a break to rest.
pub proof fn phase_moves_along_edges(m: TimerView, command: Command)
    requires
        m.wf(),
    ensures
        ({
            let after = m.apply(command).timer;
            ||| after.state == m.state
            ||| command is Start && m.state == TimerState::Idle && after.state
                == TimerState::Work
            ||| command is Start && m.state == TimerState::Paused && after.state
                == m.previous_state && is_running(after.state)
            ||| command is Pause && is_running(m.state) && after.state == TimerState::Paused
                && after.previous_state == m.state
            ||| command is Reset && after.state == TimerState::Idle
            ||| (command is Tick || command is SkipPhase) && m.state == TimerState::Work
                && after.state == m.break_due()
            ||| (command is Tick || command is SkipPhase) && is_break(m.state) && after.state
                == TimerState::Idle
        }),
{
}

proof fn lemma_state_changes_of_one(event: TimerEvent)
    ensures
        state_changes(seq![event]) == if event is StateChanged {
            seq![event]
        } else {
            Seq::<TimerEvent>::empty()
        },
{
    reveal_with_fuel(Seq::filter, 2);
    assert(seq![event].drop_last() =~= Seq::<TimerEvent>::empty());
    assert(Seq::<TimerEvent>::empty().push(event) =~= seq![event]);
}

proof fn lemma_state_changes_of_tick(m: TimerView)
    requires
        is_running(m.state),
    ensures
        state_changes(m.tick().events) == if m.seconds_after_tick() == 0 {
            state_changes(
                (TimerView { remaining_seconds: 0, ..m }).transition().events,
            )
        } else {
            Seq::<TimerEvent>::empty()
        },
{
    let keep = |event: TimerEvent| event is StateChanged;
    let left = m.seconds_after_tick();
    let ticked = TimerView { remaining_seconds: left, ..m };
    lemma_state_changes_of_one(tick_event(left));
    if left == 0 {
        let told = seq![tick_event(left)];
        let done = seq![TimerEvent::SessionComplete(m.state)];
        let moved = ticked.transition().events;
        lemma_state_changes_of_one(TimerEvent::SessionComplete(m.state));
        assert(m.tick().events =~= (told + done) + moved);
        Seq::filter_distributes_over_add(told + done, moved, keep);
        Seq::filter_distributes_over_add(told, done, keep);
        assert(Seq::<TimerEvent>::empty() + Seq::<TimerEvent>::empty() =~= Seq::<
            TimerEvent,
        >::empty());
        assert(Seq::<TimerEvent>::empty() + moved.filter(keep) =~= moved.filter(keep));
    }
}

/// A change of phase is told exactly once: an operation that changes the
/// phase gives out one `StateChanged`, with the new phase; an operation that
/// leaves the phase as it is gives out none.
pub proof fn phase_change_is_told_once(m: TimerView, command: Command)
    ensures
        state_changes(m.apply(command).events) == if m.apply(command).timer.state != m.state {
            seq![TimerEvent::StateChanged(m.apply(command).timer.state)]
        } else {
            Seq::<TimerEvent>::empty()
        },
{
    let step = m.apply(command);
    assert(state_changes(Seq::<TimerEvent>::empty()) =~= Seq::<TimerEvent>::empty()) by {
        reveal_with_fuel(Seq::filter, 1);
    }
    lemma_state_changes_of_one(TimerEvent::StateChanged(step.timer.state));
    match command {
        Command::Tick => {
            if is_running(m.state) {
                lemma_state_changes_of_tick(m);
            }
        },
        Command::SkipPhase => {
            if is_running(m.state) {
                lemma_state_changes_of_tick(TimerView { remaining_seconds: 0, ..m });
            }
        },
        _ => {},
    }
}

/// A countdown that is on time stays on time: what is left never drops
/// below zero and never exceeds what the phase began with. The one
/// operation that can break this is the extension of a break by a negative
/// amount.
pub proof fn countdown_stays_on_time(m: TimerView, command: Command)
    requires
        m.wf(),
        m.on_time(),
        command.allowed(),
        command matches Command::ExtendBreak { additional_seconds } ==> additional_seconds >= 0,
    ensures
        m.apply(command).timer.on_time(),
{
}

/// Pausing a running phase and starting again brings back the same phase
/// with the countdown as it was: no second is lost or gained. The one thing
/// that differs afterwards is the note of which phase was paused last.
pub proof fn pause_then_start_resumes(m: TimerView)
    requires
        is_running(m.state),
    ensures
        m.pause().timer.start().timer == (TimerView { previous_state: m.state, ..m }),
        m.pause().timer.start().timer.state == m.state,
        m.pause().timer.start().timer.remaining_seconds == m.remaining_seconds,
        m.pause().timer.start().timer.total_seconds == m.total_seconds,
        m.pause().events == seq![TimerEvent::StateChanged(TimerState::Paused)],
        m.pause().timer.start().events == seq![TimerEvent::StateChanged(m.state)],
{
}

/// Extending a break by `x` seconds adds `x` to what is left and to what the
/// break began with, and leaves the time gone by as it was. The share of the
/// break that has gone by, time gone by over the whole, keeps its value only
/// where no time has gone by yet or `x` is zero.
pub proof fn extension_keeps_elapsed(m: TimerView, x: int)
    requires
        is_break(m.state),
        m.total_seconds > 0,
        m.total_seconds + x > 0,
    ensures
        m.extend_break(x).remaining_seconds == m.remaining_seconds + x,
        m.extend_break(x).total_seconds == m.total_seconds + x,
        m.extend_break(x).elapsed() == m.elapsed(),
        m.elapsed() * m.extend_break(x).total_seconds == m.extend_break(x).elapsed()
            * m.total_seconds <==> (m.elapsed() == 0 || x == 0),
{
    let e = m.elapsed();
    let t = m.total_seconds;
    assert(e * (t + x) == e * t + e * x) by (nonlinear_arith);
    assert(e * x == 0 <==> (e == 0 || x == 0)) by (nonlinear_arith);
}

// Runs of ticks

/// At rest and in a pause, ticks change nothing and give nothing out,
/// however many there are.
pub proof fn ticks_at_rest_do_nothing(m: TimerView, n: nat)
    requires
        !is_running(m.state),
    ensures
        run_ticks(m, n).timer == m,
        run_ticks(m, n).events == Seq::<TimerEvent>::empty(),
    decreases n,
{
    if n > 0 {
        ticks_at_rest_do_nothing(m, (n - 1) as nat);
        assert(m.tick().events + run_ticks(m, (n - 1) as nat).events =~= Seq::<
            TimerEvent,
        >::empty());
    }
}

proof fn lemma_no_phase_events_in_nothing()
    ensures
        phase_events(Seq::<TimerEvent>::empty()) == Seq::<TimerEvent>::empty(),
{
    reveal_with_fuel(Seq::filter, 1);
}

proof fn lemma_phase_events_of_tick(left: int, rest: Seq<TimerEvent>)
    ensures
        phase_events(seq![tick_event(left)] + rest) == phase_events(rest),
{
    let keep = |event: TimerEvent| is_phase_event(event);
    let head = seq![tick_event(left)];
    Seq::filter_distributes_over_add(head, rest, keep);
    assert(head.filter(keep) =~= Seq::<TimerEvent>::empty()) by {
        reveal_with_fuel(Seq::filter, 2);
        assert(head.drop_last() =~= Seq::<TimerEvent>::empty());
    }
    assert(Seq::<TimerEvent>::empty() + rest.filter(keep) =~= rest.filter(keep));
}

proof fn lemma_count_down_timer(m: TimerView, n: nat)
    requires
        is_running(m.state),
        n < m.remaining_seconds,
    ensures
        run_ticks(m, n).timer == (TimerView {
            remaining_seconds: m.remaining_seconds - n,
            ..m
        }),
    decreases n,
{
    if n > 0 {
        let ticked = TimerView { remaining_seconds: m.remaining_seconds - 1, ..m };
        assert(m.seconds_after_tick() == m.remaining_seconds - 1);
        assert(m.tick().timer == ticked);
        lemma_count_down_timer(ticked, (n - 1) as nat);
    }
}

proof fn lemma_count_down_events(m: TimerView, n: nat)
    requires
        is_running(m.state),
        n < m.remaining_seconds,
    ensures
        run_ticks(m, n).events.len() == n,
    decreases n,
{
    if n > 0 {
        let ticked = TimerView { remaining_seconds: m.remaining_seconds - 1, ..m };
        assert(m.seconds_after_tick() == m.remaining_seconds - 1);
        assert(m.tick().timer == ticked);
        assert(m.tick().events.len() == 1);
        lemma_count_down_events(ticked, (n - 1) as nat);
    }
}

proof fn lemma_count_down_phase_events(m: TimerView, n: nat)
    requires
        is_running(m.state),
        n < m.remaining_seconds,
    ensures
        phase_events(run_ticks(m, n).events) == Seq::<TimerEvent>::empty(),
    decreases n,
{
    if n == 0 {
        lemma_no_phase_events_in_nothing();
    } else {
        let ticked = TimerView { remaining_seconds: m.remaining_seconds - 1, ..m };
        assert(m.seconds_after_tick() == m.remaining_seconds - 1);
        assert(m.tick().timer == ticked);
        assert(m.tick().events =~= seq![tick_event(m.remaining_seconds - 1)]);
        lemma_count_down_phase_events(ticked, (n - 1) as nat);
        lemma_phase_events_of_tick(
            m.remaining_seconds - 1,
            run_ticks(ticked, (n - 1) as nat).events,
        );
    }
}

/// Ticks short of the end of a phase only count down: after `n` ticks, with
/// more than `n` seconds left before them, the phase is the same, `n`
/// seconds fewer are left, and nothing but ticks was given out.
pub proof fn ticks_only_count_down(m: TimerView, n: nat)
    requires
        is_running(m.state),
        n < m.remaining_seconds,
    ensures
        run_ticks(m, n).timer == (TimerView {
            remaining_seconds: m.remaining_seconds - n,
            ..m
        }),
        run_ticks(m, n).events.len() == n,
        phase_events(run_ticks(m, n).events) == Seq::<TimerEvent>::empty(),
{
    lemma_count_down_timer(m, n);
    lemma_count_down_events(m, n);
    lemma_count_down_phase_events(m, n);
}

/// Skipping a running phase with `n >= 1` seconds left leaves the timer as
/// `n` ticks would, and gives out the same notifications about phases, in
/// the same order; only the ticks in between are missing.
pub proof fn skip_matches_ticks(m: TimerView)
    requires
        is_running(m.state),
        m.remaining_seconds >= 1,
    ensures
        run_ticks(m, m.remaining_seconds as nat).timer == m.skip_phase().timer,
        phase_events(run_ticks(m, m.remaining_seconds as nat).events) == phase_events(
            m.skip_phase().events,
        ),
    decreases m.remaining_seconds,
{
    let n = m.remaining_seconds as nat;
    let first = m.tick();
    let rest = run_ticks(first.timer, (n - 1) as nat);
    if m.remaining_seconds == 1 {
        assert(rest.events =~= Seq::<TimerEvent>::empty());
        assert(first.events + rest.events =~= first.events);
        assert(m.skip_phase().events =~= first.events);
    } else {
        skip_matches_ticks(first.timer);
        assert(first.timer.skip_phase() == m.skip_phase());
        assert(first.events =~= seq![tick_event(m.remaining_seconds - 1)]);
        lemma_phase_events_of_tick(m.remaining_seconds - 1, rest.events);
    }
}

/// Ticking a running phase down to its end leaves the timer as skipping the
/// phase does.
pub proof fn finish_phase_is_skip(m: TimerView)
    requires
        is_running(m.state),
    ensures
        finish_phase(m) == m.skip_phase().timer,
{
    if m.remaining_seconds >= 1 {
        skip_matches_ticks(m);
    } else {
        reveal_with_fuel(run_ticks, 2);
    }
}

// Rounds of work and break

/// A round from rest ends at rest, one session further on, with nothing of
/// the configuration changed.
pub proof fn round_returns_to_rest(m: TimerView)
    requires
        m.wf(),
        m.state == TimerState::Idle,
    ensures
        round(m).wf(),
        round(m).state == TimerState::Idle,
        round(m).session_count == m.session_count + 1,
        round(m).sessions_until_long == m.sessions_until_long,
        finish_phase(m.start().timer).state == m.break_due(),
{
    let working = m.start().timer;
    finish_phase_is_skip(working);
    finish_phase_is_skip(finish_phase(working));
}

proof fn lemma_rounds(m: TimerView, k: nat)
    requires
        m.wf(),
        m.state == TimerState::Idle,
    ensures
        rounds(m, k).wf(),
        rounds(m, k).state == TimerState::Idle,
        rounds(m, k).session_count == m.session_count + k,
        rounds(m, k).sessions_until_long == m.sessions_until_long,
    decreases k,
{
    if k > 0 {
        lemma_rounds(m, (k - 1) as nat);
        round_returns_to_rest(rounds(m, (k - 1) as nat));
    }
}

/// From a timer at rest before its first session, with work and breaks
/// ticked down one after the other: the `k`-th work session leads to a long
/// break when `k` is a multiple of the cadence, and to a short break
/// otherwise. So of the first `sessions_until_long` sessions the last one
/// leads to a long break and all the others lead to a short one.
pub proof fn long_break_cadence(m: TimerView, k: nat)
    requires
        m.wf(),
        m.state == TimerState::Idle,
        m.session_count == 1,
        k >= 1,
    ensures
        phase_after_session(m, k) == if k % (m.sessions_until_long as nat) == 0 {
            TimerState::LongBreak
        } else {
            TimerState::ShortBreak
        },
        k < m.sessions_until_long ==> phase_after_session(m, k) == TimerState::ShortBreak,
        k == m.sessions_until_long ==> phase_after_session(m, k) == TimerState::LongBreak,
{
    let before = rounds(m, (k - 1) as nat);
    lemma_rounds(m, (k - 1) as nat);
    round_returns_to_rest(before);
    assert(before.session_count == k);
    if k < m.sessions_until_long {
        lemma_small_mod(k, m.sessions_until_long as nat);
    }
    if k == m.sessions_until_long {
        lemma_mod_self_0(k as int);
    }
}

// Whole runs

/// Whatever is asked of a new timer, in whatever order, it stays in order.
pub proof fn order_holds_throughout(commands: Seq<Command>)
    requires
        forall|i: int| 0 <= i < commands.len() ==> (#[trigger] commands[i]).allowed(),
    ensures
        apply_all(TimerView::initial(), commands).timer.wf(),
    decreases commands.len(),
{
    if commands.len() > 0 {
        order_holds_throughout(commands.drop_last());
        order_is_kept(
            apply_all(TimerView::initial(), commands.drop_last()).timer,
            commands.last(),
        );
    }
}

/// Whatever is asked of a new timer, in whatever order, its countdown stays
/// on time, as long as no break is extended by a negative amount.
pub proof fn on_time_throughout(commands: Seq<Command>)
    requires
        forall|i: int| 0 <= i < commands.len() ==> (#[trigger] commands[i]).allowed(),
        forall|i: int|
            0 <= i < commands.len() ==> (#[trigger] commands[i] matches Command::ExtendBreak {
                additional_seconds,
            } ==> additional_seconds >= 0),
    ensures
        apply_all(TimerView::initial(), commands).timer.on_time(),
    decreases commands.len(),
{
    if commands.len() > 0 {
        on_time_throughout(commands.drop_last());
        order_holds_throughout(commands.drop_last());
        countdown_stays_on_time(
            apply_all(TimerView::initial(), commands.drop_last()).timer,
            commands.last(),
        );
    }
}

} // verus!
