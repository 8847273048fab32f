use vstd::prelude::*;
use crate::timer::{App, Action, Key, Modes, TimerState, on_key, key_action, advanced, clamp_elapsed, ignored};

verus! {

/// The whole seconds from the instant `start` to the instant `now`, both in
/// milliseconds; negative when `now` comes first.
pub open spec fn whole_seconds(start: int, now: int) -> int {
    (now - start) / 1000
}

/// Brings the elapsed time up to date from the instants `start` and `now`:
/// while running it becomes the whole seconds between them, clamped into `[0, target]`.
pub fn refresh_at(app: &mut App, start: i64, now: i64)
    ensures
        final(app)@ == advanced(old(app)@, whole_seconds(start as int, now as int)),
        final(app)@.valid(),
{
    let ghost s = app@;
    if now <= start {
        app.advance(0);
        assert(advanced(s, whole_seconds(start as int, now as int)) == advanced(s, 0));
    } else {
        let diff: u64 = (now as i128 - start as i128) as u64;
        let secs: u64 = diff / 1000;
        app.advance(secs as i64);
    }
}

/// The state after an optional key press.
pub open spec fn after_event(s: TimerState, key: Option<Key>) -> TimerState {
    match key {
        Some(k) => on_key(s, k),
        None => s,
    }
}

/// What the control loop is told after an optional key press.
pub open spec fn event_action(s: TimerState, key: Option<Key>) -> Action {
    match key {
        Some(k) => key_action(s, k),
        None => Action::Stay,
    }
}

/// One turn of the control loop, from the state and start instant before it,
/// the key read (if any) and the clock reading: the state and start instant after it.
/// A quit leaves both as they are; a start takes the reading as the new start.
pub open spec fn turn(s: TimerState, start: int, key: Option<Key>, now: int) -> (TimerState, int) {
    let a = event_action(s, key);
    if a == Action::Quit {
        (s, start)
    } else {
        let st = if a == Action::Start { now } else { start };
        (advanced(after_event(s, key), whole_seconds(st, now)), st)
    }
}

/// The state and start instant after a series of turns, each a key (if any)
/// and a clock reading.
pub open spec fn run(s: TimerState, start: int, events: Seq<(Option<Key>, int)>) -> (TimerState, int)
    decreases events.len(),
{
    if events.len() == 0 {
        (s, start)
    } else {
        let before = run(s, start, events.drop_last());
        turn(before.0, before.1, events.last().0, events.last().1)
    }
}

/// The same turns with no key read.
pub open spec fn without_keys(events: Seq<(Option<Key>, int)>) -> Seq<(Option<Key>, int)> {
    events.map_values(|e: (Option<Key>, int)| (None::<Key>, e.1))
}

/// One turn of the control loop after the wait for a key, given the clock
/// reading `now`: handles the key, if any, takes the reading as the start when
/// the countdown starts and, unless told to quit, brings the elapsed time up to date.
pub fn step(app: &mut App, start: &mut i64, key: Option<Key>, now: i64) -> (r: Action)
    ensures
        r == event_action(old(app)@, key),
        (final(app)@, *final(start) as int) == turn(old(app)@, *old(start) as int, key, now as int),
        final(app)@.valid(),
{
    let action = match key {
        Some(k) => app.handle_key(k),
        None => Action::Stay,
    };
    if action == Action::Quit {
        return action;
    }
    if action == Action::Start {
        *start = now;
    }
    refresh_at(app, *start, now);
    action
}

/// Following the clock keeps the start instant and, in a valid state, the
/// mode, the target and validity.
proof fn lemma_advanced_keeps(s: TimerState, seconds: int)
    requires
        s.valid(),
    ensures
        advanced(s, seconds).mode == s.mode,
        advanced(s, seconds).target == s.target,
        advanced(s, seconds).valid(),
        s.mode == Modes::Input ==> advanced(s, seconds) == s,
{
}

/// Holding "decrease" in setting mode, over any number of turns and whatever the
/// clock reads, never takes the target below zero: after `n` presses it is the
/// old target less `n`, floored at zero, and the loop stays in setting mode.
pub proof fn lemma_decrease_turns_floor_at_zero(s: TimerState, start: int, events: Seq<(Option<Key>, int)>)
    requires
        s.valid(),
        s.mode == Modes::Input,
        forall|i: int| 0 <= i < events.len() ==> (#[trigger] events[i]).0 == Some(Key::Down),
    ensures
        run(s, start, events).0 == (TimerState {
            target: if s.target >= events.len() { s.target - events.len() } else { 0 },
            ..s
        }),
        run(s, start, events).0.target >= 0,
        run(s, start, events).1 == start,
    decreases events.len(),
{
    if events.len() > 0 {
        let rest = events.drop_last();
        assert forall|i: int| 0 <= i < rest.len() implies (#[trigger] rest[i]).0 == Some(Key::Down) by {
            assert(rest[i] == events[i]);
        }
        lemma_decrease_turns_floor_at_zero(s, start, rest);
        assert(events.last() == events[events.len() - 1]);
    }
}

/// Later readings of the clock give at least as many whole seconds.
proof fn lemma_whole_seconds_monotone(start: int, a: int, b: int)
    requires
        a <= b,
    ensures
        whole_seconds(start, a) <= whole_seconds(start, b),
{
    assert((a - start) / 1000 <= (b - start) / 1000) by (nonlinear_arith)
        requires a - start <= b - start;
}

/// While running, over any number of turns without a cancel and with clock
/// readings that do not go back, the elapsed time never decreases and never
/// passes the target; the target, the mode and the start stay as they are.
/// `prev` is the reading from which the elapsed time was last brought up to date.
pub proof fn lemma_running_turns_monotone(
    s: TimerState,
    start: int,
    prev: int,
    events: Seq<(Option<Key>, int)>,
)
    requires
        s.valid(),
        s.mode == Modes::Running,
        s.elapsed == clamp_elapsed(s.target, whole_seconds(start, prev)),
        forall|i: int| 0 <= i < events.len() ==> (#[trigger] events[i]).0 != Some(Key::Esc),
        forall|i: int| 0 <= i < events.len() ==> prev <= (#[trigger] events[i]).1,
        forall|i: int, j: int| 0 <= i <= j < events.len() ==> (#[trigger] events[i]).1 <= (#[trigger] events[j]).1,
    ensures
        run(s, start, events).0.mode == Modes::Running,
        run(s, start, events).0.target == s.target,
        s.elapsed <= run(s, start, events).0.elapsed <= s.target,
        run(s, start, events).1 == start,
        events.len() > 0 ==> run(s, start, events).0.elapsed == clamp_elapsed(
            s.target,
            whole_seconds(start, events.last().1),
        ),
    decreases events.len(),
{
    if events.len() > 0 {
        let rest = events.drop_last();
        assert forall|i: int| 0 <= i < rest.len() implies (#[trigger] rest[i]).0 != Some(Key::Esc) && prev <= rest[i].1 by {
            assert(rest[i] == events[i]);
        }
        assert forall|i: int, j: int| 0 <= i <= j < rest.len() implies (#[trigger] rest[i]).1 <= (#[trigger] rest[j]).1 by {
            assert(rest[i] == events[i]);
            assert(rest[j] == events[j]);
        }
        lemma_running_turns_monotone(s, start, prev, rest);
        let last = events[events.len() - 1];
        assert(events.last() == last);
        let before = run(s, start, rest);
        let earlier = if rest.len() > 0 { rest.last().1 } else { prev };
        if rest.len() > 0 {
            assert(rest.last() == events[rest.len() - 1]);
        }
        lemma_whole_seconds_monotone(start, earlier, last.1);
        lemma_whole_seconds_monotone(start, prev, last.1);
        assert(before.0.elapsed == clamp_elapsed(s.target, whole_seconds(start, earlier)));
        assert(key_action(before.0, Key::Esc) == Action::Stay);
    }
}

/// Over any number of turns, keys that the current mode does not react to do
/// what no key at all does: the state only follows the clock, and in setting
/// mode nothing changes.
pub proof fn lemma_ignored_keys_turns(s: TimerState, start: int, events: Seq<(Option<Key>, int)>)
    requires
        s.valid(),
        forall|i: int| 0 <= i < events.len() ==> match (#[trigger] events[i]).0 {
            Some(k) => ignored(s.mode, k),
            None => true,
        },
    ensures
        run(s, start, events) == run(s, start, without_keys(events)),
        run(s, start, events).0.mode == s.mode,
        run(s, start, events).0.target == s.target,
        run(s, start, events).0.valid(),
        run(s, start, events).1 == start,
        s.mode == Modes::Input ==> run(s, start, events) == (s, start),
    decreases events.len(),
{
    if events.len() > 0 {
        let rest = events.drop_last();
        assert forall|i: int| 0 <= i < rest.len() implies match (#[trigger] rest[i]).0 {
            Some(k) => ignored(s.mode, k),
            None => true,
        } by {
            assert(rest[i] == events[i]);
        }
        lemma_ignored_keys_turns(s, start, rest);
        assert(without_keys(events).drop_last() =~= without_keys(rest));
        let last = events[events.len() - 1];
        assert(events.last() == last);
        assert(without_keys(events).last() == (None::<Key>, last.1));
        let before = run(s, start, rest);
        lemma_advanced_keeps(before.0, whole_seconds(start, last.1));
    }
}

} // verus!
