//! Styling commands: indexed foreground colors, gated on the profile's color
//! bound, and printing a line of text.

use crate::command::{push_bytes, Command, RenderError, ResetCommand};
use crate::decimal::{dec_digits, decimal_len, lemma_dec_digits_len, push_decimal};
use crate::profile::Profile;
use crate::termios::Termios;
use vstd::prelude::*;
use vstd::string::StrSliceExecFns;
use vstd::utf8::encode_utf8;

verus! {

/// A color the terminal can show, either one of the eight classic names or
/// an index into the terminal's palette.
#[derive(Clone, Copy, Debug, PartialEq, Eq, Structural)]
pub enum Color {
    Black,
    Red,
    Green,
    Yellow,
    Blue,
    Magenta,
    Cyan,
    White,
    /// A palette index; the named colors above are the first eight indices.
    ById(u8),
}

impl Color {
    /// The palette index this color stands for.
    pub open spec fn index_spec(&self) -> u8 {
        match self {
            Color::Black => 0,
            Color::Red => 1,
            Color::Green => 2,
            Color::Yellow => 3,
            Color::Blue => 4,
            Color::Magenta => 5,
            Color::Cyan => 6,
            Color::White => 7,
            Color::ById(n) => *n,
        }
    }

    /// Returns the palette index this color stands for.
    pub fn index(&self) -> (r: u8)
        ensures
            r == self.index_spec(),
    {
        match self {
            Color::Black => 0,
            Color::Red => 1,
            Color::Green => 2,
            Color::Yellow => 3,
            Color::Blue => 4,
            Color::Magenta => 5,
            Color::Cyan => 6,
            Color::White => 7,
            Color::ById(n) => *n,
        }
    }
}

/// Sets the foreground color of everything printed afterwards.
///
/// The command is supported only when the profile reports a color capability
/// and the color's palette index lies below the reported bound; out-of-range
/// indices are rejected before any byte is written.
#[derive(Clone, Copy, Debug)]
pub struct SetForegroundColor(pub Color);

impl Command for SetForegroundColor {
    open spec fn rendered(&self) -> Seq<u8> {
        seq![0x1bu8, 0x5bu8, 0x33u8, 0x38u8, 0x3bu8, 0x35u8, 0x3bu8] + dec_digits(
            self.0.index_spec() as nat,
        ) + seq![0x6du8]
    }

    open spec fn supported_spec(&self, p: Profile) -> bool {
        match p.max_colors {
            Some(bound) => (self.0.index_spec() as u16) < bound,
            None => false,
        }
    }

    open spec fn capability_name(&self) -> Seq<char> {
        "max_colors"@
    }

    open spec fn reset_spec(&self) -> Option<ResetCommand> {
        None
    }

    open spec fn screen_mode_after(&self, before: bool) -> bool {
        before
    }

    open spec fn attrs_after(&self, attrs: Termios) -> Termios {
        attrs
    }

    fn size_hint(&self) -> (r: Option<usize>)
        ensures
            r is Some,
    {
        proof {
            lemma_dec_digits_len(self.0.index_spec() as nat);
        }
        let digits = decimal_len(self.0.index() as u16);
        Some(8 + digits)
    }

    fn is_supported(&self, profile: &Profile) -> bool {
        match profile.max_colors {
            Some(bound) => (self.0.index() as u16) < bound,
            None => false,
        }
    }

    fn queue(&self, profile: &Profile, target: &mut Vec<u8>) -> Result<(), RenderError> {
        if !self.is_supported(profile) {
            return Err(RenderError::Unsupported("max_colors".to_owned()));
        }
        target.push(0x1b);
        target.push(0x5b);
        target.push(0x33);
        target.push(0x38);
        target.push(0x3b);
        target.push(0x35);
        target.push(0x3b);
        push_decimal(target, self.0.index() as u64);
        target.push(0x6d);
        proof {
            assert(target@ =~= old(target)@ + self.rendered());
        }
        Ok(())
    }

    fn reset_cmd(&self) -> Option<ResetCommand> {
        None
    }

    proof fn reset_restores_observable_state(&self, before: bool, attrs: Termios) {
    }
}

/// Prints a line of text followed by a carriage return and a newline.
#[derive(Clone, Debug)]
pub struct Print(pub String);

impl Command for Print {
    open spec fn rendered(&self) -> Seq<u8> {
        encode_utf8(self.0@) + seq![0x0du8, 0x0au8]
    }

    open spec fn supported_spec(&self, p: Profile) -> bool {
        true
    }

    open spec fn capability_name(&self) -> Seq<char> {
        Seq::empty()
    }

    open spec fn reset_spec(&self) -> Option<ResetCommand> {
        None
    }

    open spec fn screen_mode_after(&self, before: bool) -> bool {
        before
    }

    open spec fn attrs_after(&self, attrs: Termios) -> Termios {
        attrs
    }

    fn size_hint(&self) -> Option<usize> {
        let bytes = self.0.as_str().as_bytes_vec();
        let text_len = bytes.len();
        if text_len <= usize::MAX - 2 {
            Some(text_len + 2)
        } else {
            None
        }
    }

    fn is_supported(&self, profile: &Profile) -> bool {
        true
    }

    fn queue(&self, profile: &Profile, target: &mut Vec<u8>) -> Result<(), RenderError> {
        push_bytes(target, self.0.as_str().as_bytes());
        target.push(0x0d);
        target.push(0x0a);
        proof {
            assert(target@ =~= old(target)@ + self.rendered());
        }
        Ok(())
    }

    fn reset_cmd(&self) -> Option<ResetCommand> {
        None
    }

    proof fn reset_restores_observable_state(&self, before: bool, attrs: Termios) {
    }
}

} // verus!
