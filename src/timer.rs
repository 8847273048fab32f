use vstd::prelude::*;

verus! {

/// The two interaction states of the timer.
#[derive(Clone, Copy, Debug, PartialEq, Eq, Structural)]
pub enum Modes {
    /// The countdown length is being set.
    Input,
    /// The countdown is under way.
    Running,
}

/// The keys the timer distinguishes; every other key is `Other`.
#[derive(Clone, Copy, Debug, PartialEq, Eq, Structural)]
pub enum Key {
    Char(char),
    Up,
    Down,
    Enter,
    Esc,
    Other,
}

/// What the control loop has to do after a key was handled.
#[derive(Clone, Copy, Debug, PartialEq, Eq, Structural)]
pub enum Action {
    /// Leave the loop.
    Quit,
    /// The countdown was started: take a fresh start time.
    Start,
    /// Nothing beyond the state change.
    Stay,
}

/// The abstract state of a timer: target and elapsed seconds, and the mode.
pub struct TimerState {
    pub target: int,
    pub elapsed: int,
    pub mode: Modes,
}

impl TimerState {
    /// A state the timer can be in: counts within bounds, nothing elapsed while setting.
    pub open spec fn valid(self) -> bool {
        &&& 0 <= self.elapsed <= self.target <= i64::MAX
        &&& self.mode == Modes::Input ==> self.elapsed == 0
    }

    /// Seconds left on the countdown.
    pub open spec fn remaining(self) -> int {
        self.target - self.elapsed
    }
}

/// The state after one key press.
pub open spec fn on_key(s: TimerState, k: Key) -> TimerState {
    match s.mode {
        Modes::Input => match k {
            Key::Up => if s.target < i64::MAX {
                TimerState { target: s.target + 1, ..s }
            } else {
                s
            },
            Key::Down => if s.target > 0 {
                TimerState { target: s.target - 1, ..s }
            } else {
                s
            },
            Key::Enter => TimerState { elapsed: 0, mode: Modes::Running, ..s },
            _ => s,
        },
        Modes::Running => match k {
            Key::Esc => TimerState { elapsed: 0, mode: Modes::Input, ..s },
            _ => s,
        },
    }
}

/// What the control loop is told to do after one key press.
pub open spec fn key_action(s: TimerState, k: Key) -> Action {
    match (s.mode, k) {
        (Modes::Input, Key::Char(c)) => if c == 'q' { Action::Quit } else { Action::Stay },
        (Modes::Input, Key::Enter) => Action::Start,
        _ => Action::Stay,
    }
}

/// Whether the given mode does not react to a key: it neither changes the state nor quits.
pub open spec fn ignored(mode: Modes, k: Key) -> bool {
    match mode {
        Modes::Input => !(k == Key::Up || k == Key::Down || k == Key::Enter || k == Key::Char('q')),
        Modes::Running => k != Key::Esc,
    }
}

/// The state after the same key was pressed `n` times.
pub open spec fn presses(s: TimerState, k: Key, n: nat) -> TimerState
    decreases n,
{
    if n == 0 {
        s
    } else {
        on_key(presses(s, k, (n - 1) as nat), k)
    }
}

/// Elapsed time clamped into `[0, target]`.
pub open spec fn clamp_elapsed(target: int, seconds: int) -> int {
    if seconds < 0 {
        0
    } else if seconds > target {
        target
    } else {
        seconds
    }
}

/// The state after the clock showed `seconds` since the start; only a running timer follows it.
pub open spec fn advanced(s: TimerState, seconds: int) -> TimerState {
    match s.mode {
        Modes::Running => TimerState { elapsed: clamp_elapsed(s.target, seconds), ..s },
        Modes::Input => s,
    }
}

/// A countdown timer.
pub struct App {
    time: i64,
    elapsed: i64,
    mode: Modes,
}

impl View for App {
    type V = TimerState;

    closed spec fn view(&self) -> TimerState {
        TimerState { target: self.time as int, elapsed: self.elapsed as int, mode: self.mode }
    }
}

impl App {
    #[verifier::type_invariant]
    spec fn inv(self) -> bool {
        self@.valid()
    }

    /// A timer set to zero seconds, waiting for input.
    pub fn new() -> (r: App)
        ensures
            r@ == (TimerState { target: 0, elapsed: 0, mode: Modes::Input }),
    {
        App { time: 0, elapsed: 0, mode: Modes::Input }
    }

    pub fn target_seconds(&self) -> (r: i64)
        ensures
            r == self@.target,
    {
        self.time
    }

    pub fn elapsed_seconds(&self) -> (r: i64)
        ensures
            r == self@.elapsed,
    {
        self.elapsed
    }

    pub fn mode(&self) -> (r: Modes)
        ensures
            r == self@.mode,
            self@.valid(),
    {
        proof { use_type_invariant(self); }
        self.mode
    }

    /// Seconds left on the countdown.
    pub fn remaining(&self) -> (r: i64)
        ensures
            r == self@.remaining(),
            0 <= r <= self@.target,
            self@.valid(),
    {
        proof { use_type_invariant(self); }
        self.time - self.elapsed
    }
}

impl App {
    /// Handles one key press and says what the control loop must do next.
    pub fn handle_key(&mut self, key: Key) -> (r: Action)
        ensures
            final(self)@ == on_key(old(self)@, key),
            r == key_action(old(self)@, key),
            final(self)@.valid(),
    {
        proof { use_type_invariant(&*self); }
        match self.mode {
            Modes::Input => match key {
                Key::Char(c) => {
                    if c == 'q' {
                        Action::Quit
                    } else {
                        Action::Stay
                    }
                },
                Key::Up => {
                    if self.time < i64::MAX {
                        *self = App { time: self.time + 1, elapsed: self.elapsed, mode: self.mode };
                    }
                    Action::Stay
                },
                Key::Down => {
                    if self.time > 0 {
                        *self = App { time: self.time - 1, elapsed: self.elapsed, mode: self.mode };
                    }
                    Action::Stay
                },
                Key::Enter => {
                    *self = App { time: self.time, elapsed: 0, mode: Modes::Running };
                    Action::Start
                },
                _ => Action::Stay,
            },
            Modes::Running => {
                if key == Key::Esc {
                    *self = App { time: self.time, elapsed: 0, mode: Modes::Input };
                }
                Action::Stay
            },
        }
    }

    /// Follows the clock: while running, the elapsed time becomes `seconds`
    /// (the whole seconds since the start) clamped into `[0, target]`.
    pub fn advance(&mut self, seconds: i64)
        ensures
            final(self)@ == advanced(old(self)@, seconds as int),
            final(self)@.valid(),
    {
        proof { use_type_invariant(&*self); }
        if self.mode == Modes::Running {
            let e: i64 = if seconds < 0 {
                0
            } else if seconds > self.time {
                self.time
            } else {
                seconds
            };
            *self = App { time: self.time, elapsed: e, mode: self.mode };
        }
    }
}

/// Holding "decrease" in setting mode never takes the target below zero:
/// after `n` presses it is the old target less `n`, floored at zero.
pub proof fn lemma_decrease_floors_at_zero(s: TimerState, n: nat)
    requires
        s.valid(),
        s.mode == Modes::Input,
    ensures
        presses(s, Key::Down, n).target >= 0,
        presses(s, Key::Down, n).target == if s.target >= n { s.target - n } else { 0 },
        presses(s, Key::Down, n).mode == Modes::Input,
        presses(s, Key::Down, n).valid(),
    decreases n,
{
    if n > 0 {
        lemma_decrease_floors_at_zero(s, (n - 1) as nat);
    }
}

/// Confirming in setting mode starts the countdown from zero, whatever had elapsed before.
pub proof fn lemma_confirm_starts_from_zero(s: TimerState)
    requires
        s.mode == Modes::Input,
    ensures
        on_key(s, Key::Enter).elapsed == 0,
        on_key(s, Key::Enter).mode == Modes::Running,
        on_key(s, Key::Enter).target == s.target,
        key_action(s, Key::Enter) == Action::Start,
{
}

/// Cancelling a running countdown goes back to setting mode with nothing elapsed
/// and the target kept.
pub proof fn lemma_cancel_resets(s: TimerState)
    requires
        s.mode == Modes::Running,
    ensures
        on_key(s, Key::Esc).elapsed == 0,
        on_key(s, Key::Esc).mode == Modes::Input,
        on_key(s, Key::Esc).target == s.target,
{
}

/// While running, following a clock that does not go back never lowers the
/// elapsed time, and the elapsed time never passes the target.
pub proof fn lemma_running_elapsed_monotone(s: TimerState, earlier: int, later: int)
    requires
        s.valid(),
        s.mode == Modes::Running,
        earlier <= later,
    ensures
        advanced(s, earlier).elapsed <= advanced(advanced(s, earlier), later).elapsed,
        advanced(advanced(s, earlier), later).elapsed <= s.target,
        advanced(advanced(s, earlier), later).target == s.target,
        advanced(advanced(s, earlier), later).mode == Modes::Running,
        advanced(advanced(s, earlier), later).valid(),
{
}

/// Pressing, any number of times, a key that the current mode does not react to
/// leaves the state as it is.
pub proof fn lemma_ignored_keys_keep_state(s: TimerState, k: Key, n: nat)
    requires
        ignored(s.mode, k),
    ensures
        presses(s, k, n) == s,
    decreases n,
{
    if n > 0 {
        lemma_ignored_keys_keep_state(s, k, (n - 1) as nat);
    }
}

impl Default for App {
    fn default() -> (r: App)
        ensures
            r@ == (TimerState { target: 0, elapsed: 0, mode: Modes::Input }),
    {
        App::new()
    }
}

} // verus!
