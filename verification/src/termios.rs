//! A plain-value model of the terminal's line-discipline attributes: the four
//! mode-flag words that decide whether the terminal is in a custom mode, plus
//! the two special codes that raw mode sets.  The process-wide get/set
//! primitives live outside the library; every decision about attribute values
//! is made here.

use vstd::prelude::*;

verus! {

// Input mode flags (c_iflag), with their Linux values.
pub const IGNBRK: u32 = 0x001;

pub const BRKINT: u32 = 0x002;

pub const PARMRK: u32 = 0x008;

pub const ISTRIP: u32 = 0x020;

pub const INLCR: u32 = 0x040;

pub const IGNCR: u32 = 0x080;

pub const ICRNL: u32 = 0x100;

pub const IXON: u32 = 0x400;

// Output mode flags (c_oflag).
pub const OPOST: u32 = 0x001;

// Control mode flags (c_cflag).
pub const CSIZE: u32 = 0x030;

pub const CS8: u32 = 0x030;

pub const PARENB: u32 = 0x100;

// Local mode flags (c_lflag).
pub const ISIG: u32 = 0x001;

pub const ICANON: u32 = 0x002;

pub const ECHO: u32 = 0x008;

pub const ECHONL: u32 = 0x040;

pub const IEXTEN: u32 = 0x8000;

/// A snapshot of the attributes the library reasons about: the four mode-flag
/// words compared when asking "is the terminal in a custom mode", and the
/// minimum-input and timeout special codes that raw mode sets.
#[derive(Clone, Copy, Debug, PartialEq, Eq, Structural)]
pub struct Termios {
    /// How input is interpreted (c_iflag).
    pub input_modes: u32,
    /// How output is translated (c_oflag).
    pub output_modes: u32,
    /// Low-level configuration flags (c_cflag).
    pub control_modes: u32,
    /// High-level configuration flags (c_lflag).
    pub local_modes: u32,
    /// Minimum number of bytes a blocking read waits for (the VMIN code).
    pub vmin: u8,
    /// Read timeout in deciseconds (the VTIME code).
    pub vtime: u8,
}

/// The attribute snapshot that raw mode turns `t` into: break, parity,
/// strip, CR/NL translation and flow control off on input; output
/// post-processing off; eight data bits without parity; echo, canonical
/// mode, signals and extensions off; reads return byte by byte.
pub open spec fn make_raw_spec(t: Termios) -> Termios {
    Termios {
        input_modes: t.input_modes & !(IGNBRK | BRKINT | PARMRK | ISTRIP | INLCR | IGNCR | ICRNL
            | IXON),
        output_modes: t.output_modes & !OPOST,
        control_modes: (t.control_modes & !(CSIZE | PARENB)) | CS8,
        local_modes: t.local_modes & !(ECHO | ECHONL | ICANON | ISIG | IEXTEN),
        vmin: 1,
        vtime: 0,
    }
}

impl Termios {
    /// Turns this snapshot into the raw-mode configuration.
    pub fn make_raw(&mut self)
        ensures
            *final(self) == make_raw_spec(*old(self)),
    {
        self.input_modes = self.input_modes & !(IGNBRK | BRKINT | PARMRK | ISTRIP | INLCR | IGNCR
            | ICRNL | IXON);
        self.output_modes = self.output_modes & !OPOST;
        self.control_modes = (self.control_modes & !(CSIZE | PARENB)) | CS8;
        self.local_modes = self.local_modes & !(ECHO | ECHONL | ICANON | ISIG | IEXTEN);
        self.vmin = 1;
        self.vtime = 0;
    }
}

/// Two snapshots agree on everything that decides whether the terminal is in
/// a custom mode: the four mode-flag words.  The special codes are allowed to
/// drift.
pub open spec fn termios_mostly_equal_spec(a: Termios, b: Termios) -> bool {
    a.input_modes == b.input_modes && a.output_modes == b.output_modes && a.control_modes
        == b.control_modes && a.local_modes == b.local_modes
}

/// Compares the fields that matter for "is this terminal currently in a
/// custom mode".
pub fn termios_mostly_equal(a: &Termios, b: &Termios) -> (r: bool)
    ensures
        r == termios_mostly_equal_spec(*a, *b),
{
    a.input_modes == b.input_modes && a.output_modes == b.output_modes && a.control_modes
        == b.control_modes && a.local_modes == b.local_modes
}

} // verus!
