use vstd::prelude::*;
use crate::timer::{App, Modes, TimerState};

verus! {

/// The key hints shown while the countdown length is being set.
pub const INPUT_HINTS: &'static str = "[ q ] to quit, [ ^ ] inc time, [ v ] dec time, [ enter ] to start time";

/// The key hint shown while the countdown runs.
pub const RUNNING_HINTS: &'static str = "[ esc ] to change time";

/// The title of the error panel.
pub const ERROR_TITLE: &'static str = "Error Message";

/// The colour of a piece of text.
#[derive(Clone, Copy, Debug, PartialEq, Eq, Structural)]
pub enum Tint {
    /// The terminal's own colour.
    Plain,
    Green,
    Red,
}

/// What the screen shows for one state of the timer.
pub struct Screen {
    /// The key hints on the top line.
    pub instructions: String,
    /// The seconds left, in decimal, shown centred in a bordered box.
    pub time_text: String,
    /// The seconds left.
    pub remaining: i64,
    /// The colour of the seconds left.
    pub tint: Tint,
    /// Whether the seconds left blink to draw attention.
    pub blink: bool,
}

/// A titled panel holding an error message.
pub struct Message {
    pub title: String,
    pub text: String,
    pub tint: Tint,
}

/// The character of a decimal digit.
pub open spec fn digit_char(d: nat) -> char {
    if d < 10 { ((d + 48) as u8) as char } else { '?' }
}

/// The decimal numeral of `n`, without leading zeros.
pub open spec fn decimal(n: nat) -> Seq<char>
    decreases n,
{
    if n < 10 {
        seq![digit_char(n)]
    } else {
        decimal(n / 10) + seq![digit_char(n % 10)]
    }
}

/// The colour of the seconds left in a state.
pub open spec fn tint_of(s: TimerState) -> Tint {
    match s.mode {
        Modes::Input => Tint::Plain,
        Modes::Running => if s.remaining() == 0 { Tint::Red } else { Tint::Green },
    }
}

/// The key hints for a mode.
pub open spec fn hints_of(mode: Modes) -> Seq<char> {
    match mode {
        Modes::Input => INPUT_HINTS@,
        Modes::Running => RUNNING_HINTS@,
    }
}

fn digit_str(d: u64) -> (r: &'static str)
    requires
        d < 10,
    ensures
        r@ == seq![digit_char(d as nat)],
{
    proof {
        reveal_strlit("0");
        reveal_strlit("1");
        reveal_strlit("2");
        reveal_strlit("3");
        reveal_strlit("4");
        reveal_strlit("5");
        reveal_strlit("6");
        reveal_strlit("7");
        reveal_strlit("8");
        reveal_strlit("9");
    }
    match d {
        0 => "0",
        1 => "1",
        2 => "2",
        3 => "3",
        4 => "4",
        5 => "5",
        6 => "6",
        7 => "7",
        8 => "8",
        _ => "9",
    }
}

/// Appends the decimal numeral of `n` to `out`.
fn push_decimal(out: &mut String, n: u64)
    ensures
        final(out)@ == old(out)@ + decimal(n as nat),
    decreases n,
{
    if n >= 10 {
        push_decimal(out, n / 10);
    }
    out.append(digit_str(n % 10));
    proof {
        if n >= 10 {
            assert(final(out)@ == old(out)@ + decimal((n / 10) as nat) + seq![digit_char((n % 10) as nat)]);
        }
    }
}

/// The decimal numeral of `n`.
pub fn decimal_text(n: u64) -> (r: String)
    ensures
        r@ == decimal(n as nat),
{
    let mut out = String::new();
    push_decimal(&mut out, n);
    proof {
        assert(out@ =~= decimal(n as nat));
    }
    out
}

/// What the screen shows for the timer: the key hints of its mode, and the
/// seconds left, plain while setting, green while running with time left,
/// red once none is left, and blinking whenever the countdown runs.
pub fn ui(app: &App) -> (r: Screen)
    ensures
        r.instructions@ == hints_of(app@.mode),
        r.remaining == app@.remaining(),
        0 <= r.remaining <= app@.target,
        app@.valid(),
        r.time_text@ == decimal(app@.remaining() as nat),
        r.tint == tint_of(app@),
        r.blink == (app@.mode == Modes::Running),
{
    let remaining = app.remaining();
    let mode = app.mode();
    let instructions = match mode {
        Modes::Input => String::from_str(INPUT_HINTS),
        Modes::Running => String::from_str(RUNNING_HINTS),
    };
    let tint = match mode {
        Modes::Input => Tint::Plain,
        Modes::Running => if remaining == 0 { Tint::Red } else { Tint::Green },
    };
    Screen {
        instructions,
        time_text: decimal_text(remaining as u64),
        remaining,
        tint,
        blink: mode == Modes::Running,
    }
}

/// The error panel for a message: titled, with the message in red.
pub fn log(msg: String) -> (r: Message)
    ensures
        r.title@ == ERROR_TITLE@,
        r.text@ == msg@,
        r.tint == Tint::Red,
{
    Message { title: String::from_str(ERROR_TITLE), text: msg, tint: Tint::Red }
}

} // verus!
