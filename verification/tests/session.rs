//! The session's behaviour: reset-stack round trips, batch atomicity,
//! raw-mode idempotence, capability gating, and teardown restoration.

use supaterm::command::Command;
use supaterm::style::{Color, SetForegroundColor};
use supaterm::terminal::EnterAlternateScreen;
use supaterm::{Profile, RenderError, ResetCommand, SetAttrsError, Terminal, Termios};

fn sample_termios() -> Termios {
    Termios {
        input_modes: 0x0500,
        output_modes: 0x0005,
        control_modes: 0x00bf,
        local_modes: 0x8a3b,
        vmin: 0,
        vtime: 0,
    }
}

fn alt_profile() -> Profile {
    Profile {
        alternate_screen: true,
        max_colors: Some(8),
    }
}

#[test]
fn enter_then_teardown_emits_leave_once() {
    let mut term = Terminal::new(alt_profile(), sample_termios());
    term.queue(EnterAlternateScreen).expect("enter should render");
    assert_eq!(term.commands_to_reset, vec![ResetCommand::LeaveAlternateScreen]);
    term.teardown();
    let out = term.take_output();
    assert_eq!(out.as_slice(), b"\x1b[?1049h\x1b[?1049l".as_slice());
    assert!(term.commands_to_reset.is_empty());
}

#[test]
fn enter_twice_then_teardown_emits_leave_twice() {
    let mut term = Terminal::new(alt_profile(), sample_termios());
    term.queue(EnterAlternateScreen).expect("enter should render");
    term.queue(EnterAlternateScreen).expect("enter should render");
    assert_eq!(term.commands_to_reset.len(), 2);
    term.teardown();
    let out = term.take_output();
    assert_eq!(
        out.as_slice(),
        b"\x1b[?1049h\x1b[?1049h\x1b[?1049l\x1b[?1049l".as_slice()
    );
}

#[test]
fn teardown_runs_resets_in_lifo_order() {
    let mut term = Terminal::new(alt_profile(), sample_termios());
    term.commands_to_reset.push(ResetCommand::LeaveAlternateScreen);
    let restored = term.teardown();
    assert_eq!(restored, sample_termios());
    assert!(term.commands_to_reset.is_empty());
    assert_eq!(term.take_output().as_slice(), b"\x1b[?1049l".as_slice());
}

#[test]
fn queue_all_renders_whole_batch() {
    let mut term = Terminal::new(alt_profile(), sample_termios());
    let batch = vec![
        SetForegroundColor(Color::ById(1)),
        SetForegroundColor(Color::ById(2)),
        SetForegroundColor(Color::ById(3)),
    ];
    term.queue_all(&batch).expect("all three are in bounds");
    let out = term.take_output();
    assert_eq!(out.as_slice(), b"\x1b[38;5;1m\x1b[38;5;2m\x1b[38;5;3m".as_slice());
}

#[test]
fn queue_all_unsupported_middle_writes_nothing() {
    let mut term = Terminal::new(alt_profile(), sample_termios());
    let batch = vec![
        SetForegroundColor(Color::ById(1)),
        SetForegroundColor(Color::ById(200)),
        SetForegroundColor(Color::ById(3)),
    ];
    let err = term.queue_all(&batch).expect_err("the middle command is out of bounds");
    let RenderError::Unsupported(name) = err;
    assert_eq!(name, "max_colors");
    assert!(term.take_output().is_empty());
}

#[test]
fn disable_raw_mode_twice_is_idempotent() {
    let term = Terminal::new(alt_profile(), sample_termios());
    let first = term.disable_raw_mode();
    let second = term.disable_raw_mode();
    assert_eq!(first, second);
    assert_eq!(first, sample_termios());
}

#[test]
fn enable_raw_then_teardown_restores_snapshot() {
    let snapshot = sample_termios();
    let mut term = Terminal::new(alt_profile(), snapshot);
    let mut device = snapshot;
    device = term.enable_raw_mode(&device);
    assert_ne!(device, snapshot);
    let restored = term.teardown();
    device = restored;
    assert_eq!(device, snapshot);
}

#[test]
fn query_raw_mode_tracks_divergence() {
    let term = Terminal::new(alt_profile(), sample_termios());
    assert!(!term.query_raw_mode(&sample_termios()));
    let raw = term.enable_raw_mode(&sample_termios());
    assert!(term.query_raw_mode(&raw));
}

#[test]
fn color_in_bounds_renders_and_out_of_bounds_writes_nothing() {
    let mut term = Terminal::new(alt_profile(), sample_termios());
    assert!(term.is_supported(&SetForegroundColor(Color::ById(7))));
    term.queue(SetForegroundColor(Color::ById(7)))
        .expect("index 7 lies below the bound of 8");
    assert_eq!(term.take_output().as_slice(), b"\x1b[38;5;7m".as_slice());

    assert!(!term.is_supported(&SetForegroundColor(Color::ById(8))));
    let err = term
        .queue(SetForegroundColor(Color::ById(8)))
        .expect_err("index 8 reaches the bound of 8");
    let RenderError::Unsupported(name) = err;
    assert_eq!(name, "max_colors");
    assert!(term.take_output().is_empty());
}

#[test]
fn colorless_profile_rejects_colors() {
    let profile = Profile {
        alternate_screen: true,
        max_colors: None,
    };
    let mut term = Terminal::new(profile, sample_termios());
    assert!(!term.is_supported(&SetForegroundColor(Color::Black)));
    let err = term
        .queue(SetForegroundColor(Color::Black))
        .expect_err("a colorless terminal supports no color at all");
    let RenderError::Unsupported(name) = err;
    assert_eq!(name, "max_colors");
    assert!(term.take_output().is_empty());
}

#[test]
fn unsupported_enter_writes_nothing_but_records_reset() {
    let profile = Profile {
        alternate_screen: false,
        max_colors: None,
    };
    let mut term = Terminal::new(profile, sample_termios());
    let err = term
        .queue(EnterAlternateScreen)
        .expect_err("the profile has no alternate screen");
    let RenderError::Unsupported(name) = err;
    assert_eq!(name, "enter_ca_mode");
    assert!(term.take_output().is_empty());
    assert_eq!(term.commands_to_reset, vec![ResetCommand::LeaveAlternateScreen]);
}

#[test]
fn set_term_attrs_accepts_faithful_application() {
    let term = Terminal::new(alt_profile(), sample_termios());
    let requested = term.enable_raw_mode(&sample_termios());
    assert!(term.set_term_attrs(&requested, &requested).is_ok());
}

#[test]
fn set_term_attrs_reports_coerced_attributes() {
    let term = Terminal::new(alt_profile(), sample_termios());
    let requested = term.enable_raw_mode(&sample_termios());
    let observed = sample_termios();
    let err = term
        .set_term_attrs(&requested, &observed)
        .expect_err("the device kept its old attributes");
    assert_eq!(err, SetAttrsError::Unsupported(observed));
}

#[test]
fn size_hint_of_every_queued_command_is_byte_exact() {
    let mut term = Terminal::new(alt_profile(), sample_termios());
    let cmd = SetForegroundColor(Color::ById(5));
    let hint = cmd.size_hint().expect("the catalog always answers");
    term.queue(cmd).expect("index 5 lies below the bound of 8");
    assert_eq!(term.take_output().len(), hint);
}

#[test]
fn teardown_twice_emits_nothing_the_second_time() {
    let mut term = Terminal::new(alt_profile(), sample_termios());
    term.queue(EnterAlternateScreen).expect("enter should render");
    let first = term.teardown();
    term.take_output();
    let second = term.teardown();
    assert_eq!(first, second);
    assert!(term.take_output().is_empty());
    assert!(term.commands_to_reset.is_empty());
}
