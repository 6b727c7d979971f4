//! The termios model: the exact bit effect of raw mode and the fields the
//! mostly-equal comparison reads and ignores.

use supaterm::{termios_mostly_equal, Termios};

fn all_bits() -> Termios {
    Termios {
        input_modes: 0xffff,
        output_modes: 0xffff,
        control_modes: 0xffff,
        local_modes: 0xffff,
        vmin: 0,
        vtime: 9,
    }
}

#[test]
fn make_raw_clears_the_documented_bits() {
    let mut t = all_bits();
    t.make_raw();
    // Input: IGNBRK, BRKINT, PARMRK, ISTRIP, INLCR, IGNCR, ICRNL and IXON
    // drop out of 0xffff.
    assert_eq!(t.input_modes, 0xffff & !0x05eb);
    // Output: OPOST drops out.
    assert_eq!(t.output_modes, 0xfffe);
    // Control: CSIZE and PARENB drop out, CS8 comes in.
    assert_eq!(t.control_modes, (0xffff & !0x0130) | 0x0030);
    // Local: ECHO, ECHONL, ICANON, ISIG and IEXTEN drop out.
    assert_eq!(t.local_modes, 0xffff & !0x804b);
    assert_eq!(t.vmin, 1);
    assert_eq!(t.vtime, 0);
}

#[test]
fn make_raw_on_cleared_flags_only_sets_cs8_and_vmin() {
    let mut t = Termios {
        input_modes: 0,
        output_modes: 0,
        control_modes: 0,
        local_modes: 0,
        vmin: 0,
        vtime: 0,
    };
    t.make_raw();
    assert_eq!(t.input_modes, 0);
    assert_eq!(t.output_modes, 0);
    assert_eq!(t.control_modes, 0x0030);
    assert_eq!(t.local_modes, 0);
    assert_eq!(t.vmin, 1);
    assert_eq!(t.vtime, 0);
}

#[test]
fn mostly_equal_ignores_special_codes() {
    let a = all_bits();
    let mut b = all_bits();
    b.vmin = 1;
    b.vtime = 0;
    assert!(termios_mostly_equal(&a, &b));
}

#[test]
fn mostly_equal_detects_each_mode_field() {
    let a = all_bits();

    let mut b = all_bits();
    b.input_modes = 0;
    assert!(!termios_mostly_equal(&a, &b));

    let mut b = all_bits();
    b.output_modes = 0;
    assert!(!termios_mostly_equal(&a, &b));

    let mut b = all_bits();
    b.control_modes = 0;
    assert!(!termios_mostly_equal(&a, &b));

    let mut b = all_bits();
    b.local_modes = 0;
    assert!(!termios_mostly_equal(&a, &b));
}

#[test]
fn mostly_equal_is_reflexive_on_samples() {
    let a = all_bits();
    assert!(termios_mostly_equal(&a, &a));
}
