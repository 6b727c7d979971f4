//! Byte-exactness of every catalog entry: the rendering matches the expected
//! escape sequence and the size hint matches the rendering's length.

use supaterm::command::Command;
use supaterm::cursor::{
    GoDownBy, GoDownByOne, GoHome, GoLeftBy, GoLeftByOne, GoRightBy, GoRightByOne, GoTo,
    GoToBeginningAndDown, GoToBeginningAndUp, GoToColumn, GoUpBy, GoUpByOne, RequestCursorPosition,
    RestorePosition, SavePosition, VerticalTab,
};
use supaterm::erase::{
    Backspace, ClearCursorToEndOfLine, ClearCursorToEndOfScreen, ClearLine,
    ClearStartOfLineToCursor, ClearStartOfScreenToCursor, ClearScreen, DeleteChar,
};
use supaterm::style::{Color, Print, SetForegroundColor};
use supaterm::terminal::{EnterAlternateScreen, LeaveAlternateScreen, TerminalBell};
use supaterm::Profile;

fn full_profile() -> Profile {
    Profile {
        alternate_screen: true,
        max_colors: Some(256),
    }
}

fn assert_renders<C: Command>(cmd: &C, expected: &[u8]) {
    let mut out: Vec<u8> = Vec::new();
    cmd.queue(&full_profile(), &mut out)
        .expect("the command should render under a full profile");
    assert_eq!(out.as_slice(), expected);
    assert_eq!(cmd.size_hint(), Some(expected.len()));
}

#[test]
fn vertical_tab_bytes() {
    assert_renders(&VerticalTab, b"\x0b");
}

#[test]
fn go_home_bytes() {
    assert_renders(&GoHome, b"\x1b[H");
}

#[test]
fn go_to_bytes() {
    assert_renders(&GoTo(3, 7), b"\x1b[3;7f");
}

#[test]
fn go_to_multi_digit_bytes() {
    assert_renders(&GoTo(12, 345), b"\x1b[12;345f");
}

#[test]
fn go_to_zero_bytes() {
    assert_renders(&GoTo(0, 0), b"\x1b[0;0f");
}

#[test]
fn go_up_by_bytes() {
    assert_renders(&GoUpBy(7), b"\x1b[7A");
}

#[test]
fn go_up_by_zero_bytes() {
    assert_renders(&GoUpBy(0), b"\x1b[0A");
}

#[test]
fn go_up_by_largest_bytes() {
    assert_renders(&GoUpBy(u16::MAX), b"\x1b[65535A");
}

#[test]
fn go_down_by_bytes() {
    assert_renders(&GoDownBy(42), b"\x1b[42B");
}

#[test]
fn go_right_by_bytes() {
    assert_renders(&GoRightBy(5), b"\x1b[5C");
}

#[test]
fn go_left_by_bytes() {
    assert_renders(&GoLeftBy(10), b"\x1b[10D");
}

#[test]
fn go_to_beginning_and_down_bytes() {
    assert_renders(&GoToBeginningAndDown(2), b"\x1b[2E");
}

#[test]
fn go_to_beginning_and_up_bytes() {
    assert_renders(&GoToBeginningAndUp(9), b"\x1b[9F");
}

#[test]
fn go_to_column_bytes() {
    assert_renders(&GoToColumn(80), b"\x1b[80G");
}

#[test]
fn request_cursor_position_bytes() {
    assert_renders(&RequestCursorPosition, b"\x1b[6n");
}

#[test]
fn go_up_by_one_bytes() {
    assert_renders(&GoUpByOne, b"\x1bM");
}

#[test]
fn go_down_by_one_bytes() {
    assert_renders(&GoDownByOne, b"\x1bD");
}

#[test]
fn go_left_by_one_bytes() {
    assert_renders(&GoLeftByOne, b"\x1b[D");
}

#[test]
fn go_right_by_one_bytes() {
    assert_renders(&GoRightByOne, b"\x1b[C");
}

#[test]
fn save_position_bytes() {
    assert_renders(&SavePosition, b"\x1b7");
}

#[test]
fn restore_position_bytes() {
    assert_renders(&RestorePosition, b"\x1b8");
}

#[test]
fn backspace_bytes() {
    assert_renders(&Backspace, b"\x08");
}

#[test]
fn delete_char_bytes() {
    assert_renders(&DeleteChar, b"\x7f");
}

#[test]
fn clear_cursor_to_end_of_screen_bytes() {
    assert_renders(&ClearCursorToEndOfScreen, b"\x1b[0J");
}

#[test]
fn clear_start_of_screen_to_cursor_bytes() {
    assert_renders(&ClearStartOfScreenToCursor, b"\x1b[1J");
}

#[test]
fn clear_screen_bytes() {
    assert_renders(&ClearScreen, b"\x1b[2J");
}

#[test]
fn clear_cursor_to_end_of_line_bytes() {
    assert_renders(&ClearCursorToEndOfLine, b"\x1b[0K");
}

#[test]
fn clear_start_of_line_to_cursor_bytes() {
    assert_renders(&ClearStartOfLineToCursor, b"\x1b[1K");
}

#[test]
fn clear_line_bytes() {
    assert_renders(&ClearLine, b"\x1b[2K");
}

#[test]
fn terminal_bell_bytes() {
    assert_renders(&TerminalBell, b"\x07");
}

#[test]
fn enter_alternate_screen_bytes() {
    assert_renders(&EnterAlternateScreen, b"\x1b[?1049h");
}

#[test]
fn leave_alternate_screen_bytes() {
    assert_renders(&LeaveAlternateScreen, b"\x1b[?1049l");
}

#[test]
fn set_foreground_color_by_id_bytes() {
    assert_renders(&SetForegroundColor(Color::ById(7)), b"\x1b[38;5;7m");
}

#[test]
fn set_foreground_color_named_bytes() {
    assert_renders(&SetForegroundColor(Color::Black), b"\x1b[38;5;0m");
    assert_renders(&SetForegroundColor(Color::White), b"\x1b[38;5;7m");
    assert_renders(&SetForegroundColor(Color::ById(196)), b"\x1b[38;5;196m");
}

#[test]
fn print_appends_carriage_return_newline() {
    assert_renders(&Print(String::from("hello")), b"hello\r\n");
}

#[test]
fn print_empty_string() {
    assert_renders(&Print(String::new()), b"\r\n");
}

#[test]
fn named_color_indices() {
    assert_eq!(Color::Black.index(), 0);
    assert_eq!(Color::Red.index(), 1);
    assert_eq!(Color::Green.index(), 2);
    assert_eq!(Color::Yellow.index(), 3);
    assert_eq!(Color::Blue.index(), 4);
    assert_eq!(Color::Magenta.index(), 5);
    assert_eq!(Color::Cyan.index(), 6);
    assert_eq!(Color::White.index(), 7);
    assert_eq!(Color::ById(42).index(), 42);
}
