use countdown::clock::{refresh_at, step};
use countdown::display::{decimal_text, log, ui, Tint, ERROR_TITLE, INPUT_HINTS, RUNNING_HINTS};
use countdown::timer::{Action, App, Key, Modes};

fn press(app: &mut App, key: Key, n: usize) {
    for _ in 0..n {
        app.handle_key(key);
    }
}

#[test]
fn starts_in_input_at_zero() {
    let app = App::default();
    assert_eq!(app.target_seconds(), 0);
    assert_eq!(app.elapsed_seconds(), 0);
    assert_eq!(app.mode(), Modes::Input);
}

#[test]
fn scenario_confirm_at_zero_is_red() {
    let mut app = App::new();
    assert_eq!(app.handle_key(Key::Enter), Action::Start);
    assert_eq!(app.mode(), Modes::Running);
    assert_eq!(app.remaining(), 0);
    let screen = ui(&app);
    assert_eq!(screen.tint, Tint::Red);
    assert!(screen.blink);
    assert_eq!(screen.time_text, "0");
    assert_eq!(screen.instructions, RUNNING_HINTS);
}

#[test]
fn scenario_five_up_then_three_seconds_is_green() {
    let mut app = App::new();
    press(&mut app, Key::Up, 5);
    assert_eq!(app.target_seconds(), 5);
    app.handle_key(Key::Enter);
    app.advance(3);
    assert_eq!(app.remaining(), 2);
    let screen = ui(&app);
    assert_eq!(screen.tint, Tint::Green);
    assert_eq!(screen.remaining, 2);
    assert_eq!(screen.time_text, "2");
}

#[test]
fn scenario_down_at_zero_stays_zero() {
    let mut app = App::new();
    assert_eq!(app.handle_key(Key::Down), Action::Stay);
    assert_eq!(app.target_seconds(), 0);
    press(&mut app, Key::Down, 4);
    assert_eq!(app.target_seconds(), 0);
}

#[test]
fn scenario_past_target_clamps_to_zero() {
    let mut app = App::new();
    press(&mut app, Key::Up, 5);
    app.handle_key(Key::Enter);
    app.advance(5);
    assert_eq!(app.remaining(), 0);
    app.advance(9);
    assert_eq!(app.remaining(), 0);
    assert_eq!(app.elapsed_seconds(), 5);
    assert_eq!(ui(&app).tint, Tint::Red);
}

#[test]
fn scenario_cancel_at_three_resets() {
    let mut app = App::new();
    press(&mut app, Key::Up, 10);
    app.handle_key(Key::Enter);
    app.advance(3);
    assert_eq!(app.elapsed_seconds(), 3);
    assert_eq!(app.handle_key(Key::Esc), Action::Stay);
    assert_eq!(app.elapsed_seconds(), 0);
    assert_eq!(app.mode(), Modes::Input);
    assert_eq!(app.target_seconds(), 10);
}

#[test]
fn decrease_counts_down_then_floors() {
    let mut app = App::new();
    press(&mut app, Key::Up, 3);
    press(&mut app, Key::Down, 2);
    assert_eq!(app.target_seconds(), 1);
    press(&mut app, Key::Down, 5);
    assert_eq!(app.target_seconds(), 0);
}

#[test]
fn confirm_after_cancel_starts_from_zero() {
    let mut app = App::new();
    press(&mut app, Key::Up, 8);
    app.handle_key(Key::Enter);
    app.advance(4);
    app.handle_key(Key::Esc);
    app.handle_key(Key::Enter);
    assert_eq!(app.elapsed_seconds(), 0);
    assert_eq!(app.mode(), Modes::Running);
    assert_eq!(app.remaining(), 8);
}

#[test]
fn running_elapsed_never_decreases_or_passes_target() {
    let mut app = App::new();
    press(&mut app, Key::Up, 4);
    app.handle_key(Key::Enter);
    let mut last = app.elapsed_seconds();
    for s in [-2i64, 0, 1, 1, 3, 4, 6, 100] {
        app.advance(s);
        assert!(app.elapsed_seconds() >= last);
        assert!(app.elapsed_seconds() <= app.target_seconds());
        last = app.elapsed_seconds();
    }
    assert_eq!(last, 4);
}

#[test]
fn other_keys_never_change_state() {
    let mut app = App::new();
    press(&mut app, Key::Up, 2);
    for key in [Key::Other, Key::Esc, Key::Char('x')] {
        press(&mut app, key, 3);
        assert_eq!(app.target_seconds(), 2);
        assert_eq!(app.mode(), Modes::Input);
    }
    app.handle_key(Key::Enter);
    app.advance(1);
    for key in [Key::Other, Key::Up, Key::Down, Key::Enter, Key::Char('q')] {
        assert_eq!(app.handle_key(key), Action::Stay);
        assert_eq!(app.target_seconds(), 2);
        assert_eq!(app.elapsed_seconds(), 1);
        assert_eq!(app.mode(), Modes::Running);
    }
}

#[test]
fn quit_only_in_input_mode() {
    let mut app = App::new();
    assert_eq!(app.handle_key(Key::Char('q')), Action::Quit);
    assert_eq!(app.mode(), Modes::Input);
}

#[test]
fn advance_is_ignored_while_setting() {
    let mut app = App::new();
    press(&mut app, Key::Up, 3);
    app.advance(2);
    assert_eq!(app.elapsed_seconds(), 0);
}

#[test]
fn input_screen_is_plain() {
    let mut app = App::new();
    press(&mut app, Key::Up, 42);
    let screen = ui(&app);
    assert_eq!(screen.tint, Tint::Plain);
    assert!(!screen.blink);
    assert_eq!(screen.time_text, "42");
    assert_eq!(screen.instructions, INPUT_HINTS);
}

#[test]
fn decimal_numerals() {
    assert_eq!(decimal_text(0), "0");
    assert_eq!(decimal_text(7), "7");
    assert_eq!(decimal_text(10), "10");
    assert_eq!(decimal_text(1905), "1905");
    assert_eq!(decimal_text(u64::MAX), u64::MAX.to_string());
}

#[test]
fn error_panel_is_red() {
    let m = log(String::from("disk on fire"));
    assert_eq!(m.title, ERROR_TITLE);
    assert_eq!(m.title, "Error Message");
    assert_eq!(m.text, "disk on fire");
    assert_eq!(m.tint, Tint::Red);
}

#[test]
fn refresh_at_counts_whole_seconds() {
    let mut app = App::new();
    press(&mut app, Key::Up, 10);
    app.handle_key(Key::Enter);
    refresh_at(&mut app, 1_000_000, 1_003_999);
    assert_eq!(app.elapsed_seconds(), 3);
    assert_eq!(app.remaining(), 7);
    refresh_at(&mut app, 1_000_000, 1_004_000);
    assert_eq!(app.elapsed_seconds(), 4);
    refresh_at(&mut app, 1_000_000, 1_060_000);
    assert_eq!(app.elapsed_seconds(), 10);
    refresh_at(&mut app, 1_000_000, 999_000);
    assert_eq!(app.elapsed_seconds(), 0);
}

#[test]
fn refresh_at_extreme_instants() {
    let mut app = App::new();
    press(&mut app, Key::Up, 5);
    app.handle_key(Key::Enter);
    refresh_at(&mut app, i64::MIN, i64::MAX);
    assert_eq!(app.elapsed_seconds(), 5);
    refresh_at(&mut app, i64::MAX, i64::MIN);
    assert_eq!(app.elapsed_seconds(), 0);
}

#[test]
fn refresh_at_is_ignored_while_setting() {
    let mut app = App::new();
    press(&mut app, Key::Up, 5);
    refresh_at(&mut app, 0, 3_000);
    assert_eq!(app.elapsed_seconds(), 0);
    assert_eq!(app.mode(), Modes::Input);
}

#[test]
fn step_starts_and_quits() {
    let mut app = App::new();
    let mut start: i64 = 0;
    assert_eq!(step(&mut app, &mut start, Some(Key::Up), 500_000), Action::Stay);
    assert_eq!(start, 0);
    assert_eq!(step(&mut app, &mut start, None, 600_000), Action::Stay);
    assert_eq!(app.target_seconds(), 1);
    assert_eq!(app.elapsed_seconds(), 0);
    assert_eq!(step(&mut app, &mut start, Some(Key::Enter), 700_000), Action::Start);
    assert_eq!(start, 700_000);
    assert_eq!(app.mode(), Modes::Running);
    assert_eq!(app.elapsed_seconds(), 0);
    assert_eq!(step(&mut app, &mut start, Some(Key::Esc), 700_400), Action::Stay);
    assert_eq!(app.mode(), Modes::Input);
    assert_eq!(step(&mut app, &mut start, Some(Key::Char('q')), 800_000), Action::Quit);
}

#[test]
fn step_follows_the_clock_while_running() {
    let mut app = App::new();
    let mut start: i64 = 0;
    for _ in 0..5 {
        step(&mut app, &mut start, Some(Key::Up), 1_000);
    }
    step(&mut app, &mut start, Some(Key::Enter), 10_000);
    assert_eq!(start, 10_000);
    step(&mut app, &mut start, None, 12_500);
    assert_eq!(app.elapsed_seconds(), 2);
    assert_eq!(step(&mut app, &mut start, Some(Key::Up), 13_000), Action::Stay);
    assert_eq!(app.target_seconds(), 5);
    assert_eq!(app.elapsed_seconds(), 3);
    assert_eq!(app.remaining(), 2);
    step(&mut app, &mut start, None, 40_000);
    assert_eq!(app.remaining(), 0);
    assert_eq!(start, 10_000);
}

#[test]
fn q_quits_in_setting_mode_but_is_ignored_while_running() {
    let mut app = App::new();
    let mut start: i64 = 0;
    step(&mut app, &mut start, Some(Key::Up), 0);
    step(&mut app, &mut start, Some(Key::Up), 0);
    step(&mut app, &mut start, Some(Key::Enter), 1_000);
    assert_eq!(step(&mut app, &mut start, Some(Key::Char('q')), 2_000), Action::Stay);
    assert_eq!(app.mode(), Modes::Running);
    assert_eq!(app.target_seconds(), 2);
}
