//! Cursor-motion commands.  Every command renders a fixed ANSI escape
//! sequence, none is capability-gated, and none leaves an inverse behind: a
//! cursor move is not reversible, because the position before the move is not
//! known to the command.

use crate::command::{Command, RenderError, ResetCommand};
use crate::decimal::{dec_digits, decimal_len, lemma_dec_digits_len, push_decimal};
use crate::profile::Profile;
use crate::termios::Termios;
use vstd::prelude::*;

verus! {

/// The control-sequence-introducer form `ESC [ <n> <letter>`.
pub open spec fn csi_number(n: nat, letter: u8) -> Seq<u8> {
    seq![0x1bu8, 0x5bu8] + dec_digits(n) + seq![letter]
}

/// Appends `ESC [ <n> <letter>` to `target`.
fn queue_csi_number(target: &mut Vec<u8>, n: u16, letter: u8)
    ensures
        final(target)@ == old(target)@ + csi_number(n as nat, letter),
{
    target.push(0x1b);
    target.push(0x5b);
    push_decimal(target, n as u64);
    target.push(letter);
    proof {
        assert(target@ =~= old(target)@ + csi_number(n as nat, letter));
    }
}

/// The exact length of `ESC [ <n> <letter>`.
fn csi_number_len(n: u16) -> (r: usize)
    ensures
        r == 3 + dec_digits(n as nat).len(),
{
    proof {
        lemma_dec_digits_len(n as nat);
    }
    3 + decimal_len(n)
}

/// Moves the cursor onto the next vertical tab stop.
///
/// This is usually equivalent to a newline, or is ignored entirely by modern
/// terminals.
#[derive(Clone, Copy, Debug)]
pub struct VerticalTab;

impl Command for VerticalTab {
    open spec fn rendered(&self) -> Seq<u8> {
        seq![0x0bu8]
    }

    open spec fn supported_spec(&self, p: Profile) -> bool {
        true
    }

    open spec fn capability_name(&self) -> Seq<char> {
        Seq::empty()
    }

    open spec fn reset_spec(&self) -> Option<ResetCommand> {
        None
    }

    open spec fn screen_mode_after(&self, before: bool) -> bool {
        before
    }

    open spec fn attrs_after(&self, attrs: Termios) -> Termios {
        attrs
    }

    fn size_hint(&self) -> (r: Option<usize>)
        ensures
            r is Some,
    {
        Some(1)
    }

    fn is_supported(&self, profile: &Profile) -> bool {
        true
    }

    fn queue(&self, profile: &Profile, target: &mut Vec<u8>) -> Result<(), RenderError> {
        target.push(0x0b);
        proof {
            assert(target@ =~= old(target)@ + self.rendered());
        }
        Ok(())
    }

    fn reset_cmd(&self) -> Option<ResetCommand> {
        None
    }

    proof fn reset_restores_observable_state(&self, before: bool, attrs: Termios) {
    }
}

/// Moves the cursor to the top-left cell.
#[derive(Clone, Copy, Debug)]
pub struct GoHome;

impl Command for GoHome {
    open spec fn rendered(&self) -> Seq<u8> {
        seq![0x1bu8, 0x5bu8, 0x48u8]
    }

    open spec fn supported_spec(&self, p: Profile) -> bool {
        true
    }

    open spec fn capability_name(&self) -> Seq<char> {
        Seq::empty()
    }

    open spec fn reset_spec(&self) -> Option<ResetCommand> {
        None
    }

    open spec fn screen_mode_after(&self, before: bool) -> bool {
        before
    }

    open spec fn attrs_after(&self, attrs: Termios) -> Termios {
        attrs
    }

    fn size_hint(&self) -> (r: Option<usize>)
        ensures
            r is Some,
    {
        Some(3)
    }

    fn is_supported(&self, profile: &Profile) -> bool {
        true
    }

    fn queue(&self, profile: &Profile, target: &mut Vec<u8>) -> Result<(), RenderError> {
        target.push(0x1b);
        target.push(0x5b);
        target.push(0x48);
        proof {
            assert(target@ =~= old(target)@ + self.rendered());
        }
        Ok(())
    }

    fn reset_cmd(&self) -> Option<ResetCommand> {
        None
    }

    proof fn reset_restores_observable_state(&self, before: bool, attrs: Termios) {
    }
}

/// Moves the cursor to the given line and column.
#[derive(Clone, Copy, Debug)]
pub struct GoTo(pub u16, pub u16);

impl Command for GoTo {
    open spec fn rendered(&self) -> Seq<u8> {
        seq![0x1bu8, 0x5bu8] + dec_digits(self.0 as nat) + seq![0x3bu8] + dec_digits(self.1 as nat)
            + seq![0x66u8]
    }

    open spec fn supported_spec(&self, p: Profile) -> bool {
        true
    }

    open spec fn capability_name(&self) -> Seq<char> {
        Seq::empty()
    }

    open spec fn reset_spec(&self) -> Option<ResetCommand> {
        None
    }

    open spec fn screen_mode_after(&self, before: bool) -> bool {
        before
    }

    open spec fn attrs_after(&self, attrs: Termios) -> Termios {
        attrs
    }

    fn size_hint(&self) -> (r: Option<usize>)
        ensures
            r is Some,
    {
        proof {
            lemma_dec_digits_len(self.0 as nat);
            lemma_dec_digits_len(self.1 as nat);
        }
        let line_len = decimal_len(self.0);
        let column_len = decimal_len(self.1);
        Some(4 + line_len + column_len)
    }

    fn is_supported(&self, profile: &Profile) -> bool {
        true
    }

    fn queue(&self, profile: &Profile, target: &mut Vec<u8>) -> Result<(), RenderError> {
        target.push(0x1b);
        target.push(0x5b);
        push_decimal(target, self.0 as u64);
        target.push(0x3b);
        push_decimal(target, self.1 as u64);
        target.push(0x66);
        proof {
            assert(target@ =~= old(target)@ + self.rendered());
        }
        Ok(())
    }

    fn reset_cmd(&self) -> Option<ResetCommand> {
        None
    }

    proof fn reset_restores_observable_state(&self, before: bool, attrs: Termios) {
    }
}

/// Moves the cursor up by the given number of lines.
#[derive(Clone, Copy, Debug)]
pub struct GoUpBy(pub u16);

impl Command for GoUpBy {
    open spec fn rendered(&self) -> Seq<u8> {
        csi_number(self.0 as nat, 0x41)
    }

    open spec fn supported_spec(&self, p: Profile) -> bool {
        true
    }

    open spec fn capability_name(&self) -> Seq<char> {
        Seq::empty()
    }

    open spec fn reset_spec(&self) -> Option<ResetCommand> {
        None
    }

    open spec fn screen_mode_after(&self, before: bool) -> bool {
        before
    }

    open spec fn attrs_after(&self, attrs: Termios) -> Termios {
        attrs
    }

    fn size_hint(&self) -> (r: Option<usize>)
        ensures
            r is Some,
    {
        Some(csi_number_len(self.0))
    }

    fn is_supported(&self, profile: &Profile) -> bool {
        true
    }

    fn queue(&self, profile: &Profile, target: &mut Vec<u8>) -> Result<(), RenderError> {
        queue_csi_number(target, self.0, 0x41);
        Ok(())
    }

    fn reset_cmd(&self) -> Option<ResetCommand> {
        None
    }

    proof fn reset_restores_observable_state(&self, before: bool, attrs: Termios) {
    }
}

/// Moves the cursor down by the given number of lines.
#[derive(Clone, Copy, Debug)]
pub struct GoDownBy(pub u16);

impl Command for GoDownBy {
    open spec fn rendered(&self) -> Seq<u8> {
        csi_number(self.0 as nat, 0x42)
    }

    open spec fn supported_spec(&self, p: Profile) -> bool {
        true
    }

    open spec fn capability_name(&self) -> Seq<char> {
        Seq::empty()
    }

    open spec fn reset_spec(&self) -> Option<ResetCommand> {
        None
    }

    open spec fn screen_mode_after(&self, before: bool) -> bool {
        before
    }

    open spec fn attrs_after(&self, attrs: Termios) -> Termios {
        attrs
    }

    fn size_hint(&self) -> (r: Option<usize>)
        ensures
            r is Some,
    {
        Some(csi_number_len(self.0))
    }

    fn is_supported(&self, profile: &Profile) -> bool {
        true
    }

    fn queue(&self, profile: &Profile, target: &mut Vec<u8>) -> Result<(), RenderError> {
        queue_csi_number(target, self.0, 0x42);
        Ok(())
    }

    fn reset_cmd(&self) -> Option<ResetCommand> {
        None
    }

    proof fn reset_restores_observable_state(&self, before: bool, attrs: Termios) {
    }
}

/// Moves the cursor right by the given number of columns.
#[derive(Clone, Copy, Debug)]
pub struct GoRightBy(pub u16);

impl Command for GoRightBy {
    open spec fn rendered(&self) -> Seq<u8> {
        csi_number(self.0 as nat, 0x43)
    }

    open spec fn supported_spec(&self, p: Profile) -> bool {
        true
    }

    open spec fn capability_name(&self) -> Seq<char> {
        Seq::empty()
    }

    open spec fn reset_spec(&self) -> Option<ResetCommand> {
        None
    }

    open spec fn screen_mode_after(&self, before: bool) -> bool {
        before
    }

    open spec fn attrs_after(&self, attrs: Termios) -> Termios {
        attrs
    }

    fn size_hint(&self) -> (r: Option<usize>)
        ensures
            r is Some,
    {
        Some(csi_number_len(self.0))
    }

    fn is_supported(&self, profile: &Profile) -> bool {
        true
    }

    fn queue(&self, profile: &Profile, target: &mut Vec<u8>) -> Result<(), RenderError> {
        queue_csi_number(target, self.0, 0x43);
        Ok(())
    }

    fn reset_cmd(&self) -> Option<ResetCommand> {
        None
    }

    proof fn reset_restores_observable_state(&self, before: bool, attrs: Termios) {
    }
}

/// Moves the cursor left by the given number of columns.
#[derive(Clone, Copy, Debug)]
pub struct GoLeftBy(pub u16);

impl Command for GoLeftBy {
    open spec fn rendered(&self) -> Seq<u8> {
        csi_number(self.0 as nat, 0x44)
    }

    open spec fn supported_spec(&self, p: Profile) -> bool {
        true
    }

    open spec fn capability_name(&self) -> Seq<char> {
        Seq::empty()
    }

    open spec fn reset_spec(&self) -> Option<ResetCommand> {
        None
    }

    open spec fn screen_mode_after(&self, before: bool) -> bool {
        before
    }

    open spec fn attrs_after(&self, attrs: Termios) -> Termios {
        attrs
    }

    fn size_hint(&self) -> (r: Option<usize>)
        ensures
            r is Some,
    {
        Some(csi_number_len(self.0))
    }

    fn is_supported(&self, profile: &Profile) -> bool {
        true
    }

    fn queue(&self, profile: &Profile, target: &mut Vec<u8>) -> Result<(), RenderError> {
        queue_csi_number(target, self.0, 0x44);
        Ok(())
    }

    fn reset_cmd(&self) -> Option<ResetCommand> {
        None
    }

    proof fn reset_restores_observable_state(&self, before: bool, attrs: Termios) {
    }
}

/// Moves the cursor to the beginning of the current line, then the given
/// number of lines down.
#[derive(Clone, Copy, Debug)]
pub struct GoToBeginningAndDown(pub u16);

impl Command for GoToBeginningAndDown {
    open spec fn rendered(&self) -> Seq<u8> {
        csi_number(self.0 as nat, 0x45)
    }

    open spec fn supported_spec(&self, p: Profile) -> bool {
        true
    }

    open spec fn capability_name(&self) -> Seq<char> {
        Seq::empty()
    }

    open spec fn reset_spec(&self) -> Option<ResetCommand> {
        None
    }

    open spec fn screen_mode_after(&self, before: bool) -> bool {
        before
    }

    open spec fn attrs_after(&self, attrs: Termios) -> Termios {
        attrs
    }

    fn size_hint(&self) -> (r: Option<usize>)
        ensures
            r is Some,
    {
        Some(csi_number_len(self.0))
    }

    fn is_supported(&self, profile: &Profile) -> bool {
        true
    }

    fn queue(&self, profile: &Profile, target: &mut Vec<u8>) -> Result<(), RenderError> {
        queue_csi_number(target, self.0, 0x45);
        Ok(())
    }

    fn reset_cmd(&self) -> Option<ResetCommand> {
        None
    }

    proof fn reset_restores_observable_state(&self, before: bool, attrs: Termios) {
    }
}

/// Moves the cursor to the beginning of the current line, then the given
/// number of lines up.
#[derive(Clone, Copy, Debug)]
pub struct GoToBeginningAndUp(pub u16);

impl Command for GoToBeginningAndUp {
    open spec fn rendered(&self) -> Seq<u8> {
        csi_number(self.0 as nat, 0x46)
    }

    open spec fn supported_spec(&self, p: Profile) -> bool {
        true
    }

    open spec fn capability_name(&self) -> Seq<char> {
        Seq::empty()
    }

    open spec fn reset_spec(&self) -> Option<ResetCommand> {
        None
    }

    open spec fn screen_mode_after(&self, before: bool) -> bool {
        before
    }

    open spec fn attrs_after(&self, attrs: Termios) -> Termios {
        attrs
    }

    fn size_hint(&self) -> (r: Option<usize>)
        ensures
            r is Some,
    {
        Some(csi_number_len(self.0))
    }

    fn is_supported(&self, profile: &Profile) -> bool {
        true
    }

    fn queue(&self, profile: &Profile, target: &mut Vec<u8>) -> Result<(), RenderError> {
        queue_csi_number(target, self.0, 0x46);
        Ok(())
    }

    fn reset_cmd(&self) -> Option<ResetCommand> {
        None
    }

    proof fn reset_restores_observable_state(&self, before: bool, attrs: Termios) {
    }
}

/// Moves the cursor to the given column of the current line.
#[derive(Clone, Copy, Debug)]
pub struct GoToColumn(pub u16);

impl Command for GoToColumn {
    open spec fn rendered(&self) -> Seq<u8> {
        csi_number(self.0 as nat, 0x47)
    }

    open spec fn supported_spec(&self, p: Profile) -> bool {
        true
    }

    open spec fn capability_name(&self) -> Seq<char> {
        Seq::empty()
    }

    open spec fn reset_spec(&self) -> Option<ResetCommand> {
        None
    }

    open spec fn screen_mode_after(&self, before: bool) -> bool {
        before
    }

    open spec fn attrs_after(&self, attrs: Termios) -> Termios {
        attrs
    }

    fn size_hint(&self) -> (r: Option<usize>)
        ensures
            r is Some,
    {
        Some(csi_number_len(self.0))
    }

    fn is_supported(&self, profile: &Profile) -> bool {
        true
    }

    fn queue(&self, profile: &Profile, target: &mut Vec<u8>) -> Result<(), RenderError> {
        queue_csi_number(target, self.0, 0x47);
        Ok(())
    }

    fn reset_cmd(&self) -> Option<ResetCommand> {
        None
    }

    proof fn reset_restores_observable_state(&self, before: bool, attrs: Termios) {
    }
}

/// Requests the cursor position.
///
/// The terminal replies on its input stream with the cursor position in the
/// form `ESC [ <row> ; <column> R`.
#[derive(Clone, Copy, Debug)]
pub struct RequestCursorPosition;

impl Command for RequestCursorPosition {
    open spec fn rendered(&self) -> Seq<u8> {
        seq![0x1bu8, 0x5bu8, 0x36u8, 0x6eu8]
    }

    open spec fn supported_spec(&self, p: Profile) -> bool {
        true
    }

    open spec fn capability_name(&self) -> Seq<char> {
        Seq::empty()
    }

    open spec fn reset_spec(&self) -> Option<ResetCommand> {
        None
    }

    open spec fn screen_mode_after(&self, before: bool) -> bool {
        before
    }

    open spec fn attrs_after(&self, attrs: Termios) -> Termios {
        attrs
    }

    fn size_hint(&self) -> (r: Option<usize>)
        ensures
            r is Some,
    {
        Some(4)
    }

    fn is_supported(&self, profile: &Profile) -> bool {
        true
    }

    fn queue(&self, profile: &Profile, target: &mut Vec<u8>) -> Result<(), RenderError> {
        target.push(0x1b);
        target.push(0x5b);
        target.push(0x36);
        target.push(0x6e);
        proof {
            assert(target@ =~= old(target)@ + self.rendered());
        }
        Ok(())
    }

    fn reset_cmd(&self) -> Option<ResetCommand> {
        None
    }

    proof fn reset_restores_observable_state(&self, before: bool, attrs: Termios) {
    }
}

/// Moves the cursor up by one line, keeping the column the same.
#[derive(Clone, Copy, Debug)]
pub struct GoUpByOne;

impl Command for GoUpByOne {
    open spec fn rendered(&self) -> Seq<u8> {
        seq![0x1bu8, 0x4du8]
    }

    open spec fn supported_spec(&self, p: Profile) -> bool {
        true
    }

    open spec fn capability_name(&self) -> Seq<char> {
        Seq::empty()
    }

    open spec fn reset_spec(&self) -> Option<ResetCommand> {
        None
    }

    open spec fn screen_mode_after(&self, before: bool) -> bool {
        before
    }

    open spec fn attrs_after(&self, attrs: Termios) -> Termios {
        attrs
    }

    fn size_hint(&self) -> (r: Option<usize>)
        ensures
            r is Some,
    {
        Some(2)
    }

    fn is_supported(&self, profile: &Profile) -> bool {
        true
    }

    fn queue(&self, profile: &Profile, target: &mut Vec<u8>) -> Result<(), RenderError> {
        target.push(0x1b);
        target.push(0x4d);
        proof {
            assert(target@ =~= old(target)@ + self.rendered());
        }
        Ok(())
    }

    fn reset_cmd(&self) -> Option<ResetCommand> {
        None
    }

    proof fn reset_restores_observable_state(&self, before: bool, attrs: Termios) {
    }
}

/// Moves the cursor down by one line, keeping the column the same.
#[derive(Clone, Copy, Debug)]
pub struct GoDownByOne;

impl Command for GoDownByOne {
    open spec fn rendered(&self) -> Seq<u8> {
        seq![0x1bu8, 0x44u8]
    }

    open spec fn supported_spec(&self, p: Profile) -> bool {
        true
    }

    open spec fn capability_name(&self) -> Seq<char> {
        Seq::empty()
    }

    open spec fn reset_spec(&self) -> Option<ResetCommand> {
        None
    }

    open spec fn screen_mode_after(&self, before: bool) -> bool {
        before
    }

    open spec fn attrs_after(&self, attrs: Termios) -> Termios {
        attrs
    }

    fn size_hint(&self) -> (r: Option<usize>)
        ensures
            r is Some,
    {
        Some(2)
    }

    fn is_supported(&self, profile: &Profile) -> bool {
        true
    }

    fn queue(&self, profile: &Profile, target: &mut Vec<u8>) -> Result<(), RenderError> {
        target.push(0x1b);
        target.push(0x44);
        proof {
            assert(target@ =~= old(target)@ + self.rendered());
        }
        Ok(())
    }

    fn reset_cmd(&self) -> Option<ResetCommand> {
        None
    }

    proof fn reset_restores_observable_state(&self, before: bool, attrs: Termios) {
    }
}

/// Moves the cursor left by one column, keeping the line the same.
#[derive(Clone, Copy, Debug)]
pub struct GoLeftByOne;

impl Command for GoLeftByOne {
    open spec fn rendered(&self) -> Seq<u8> {
        seq![0x1bu8, 0x5bu8, 0x44u8]
    }

    open spec fn supported_spec(&self, p: Profile) -> bool {
        true
    }

    open spec fn capability_name(&self) -> Seq<char> {
        Seq::empty()
    }

    open spec fn reset_spec(&self) -> Option<ResetCommand> {
        None
    }

    open spec fn screen_mode_after(&self, before: bool) -> bool {
        before
    }

    open spec fn attrs_after(&self, attrs: Termios) -> Termios {
        attrs
    }

    fn size_hint(&self) -> (r: Option<usize>)
        ensures
            r is Some,
    {
        Some(3)
    }

    fn is_supported(&self, profile: &Profile) -> bool {
        true
    }

    fn queue(&self, profile: &Profile, target: &mut Vec<u8>) -> Result<(), RenderError> {
        target.push(0x1b);
        target.push(0x5b);
        target.push(0x44);
        proof {
            assert(target@ =~= old(target)@ + self.rendered());
        }
        Ok(())
    }

    fn reset_cmd(&self) -> Option<ResetCommand> {
        None
    }

    proof fn reset_restores_observable_state(&self, before: bool, attrs: Termios) {
    }
}

/// Moves the cursor right by one column, keeping the line the same.
#[derive(Clone, Copy, Debug)]
pub struct GoRightByOne;

impl Command for GoRightByOne {
    open spec fn rendered(&self) -> Seq<u8> {
        seq![0x1bu8, 0x5bu8, 0x43u8]
    }

    open spec fn supported_spec(&self, p: Profile) -> bool {
        true
    }

    open spec fn capability_name(&self) -> Seq<char> {
        Seq::empty()
    }

    open spec fn reset_spec(&self) -> Option<ResetCommand> {
        None
    }

    open spec fn screen_mode_after(&self, before: bool) -> bool {
        before
    }

    open spec fn attrs_after(&self, attrs: Termios) -> Termios {
        attrs
    }

    fn size_hint(&self) -> (r: Option<usize>)
        ensures
            r is Some,
    {
        Some(3)
    }

    fn is_supported(&self, profile: &Profile) -> bool {
        true
    }

    fn queue(&self, profile: &Profile, target: &mut Vec<u8>) -> Result<(), RenderError> {
        target.push(0x1b);
        target.push(0x5b);
        target.push(0x43);
        proof {
            assert(target@ =~= old(target)@ + self.rendered());
        }
        Ok(())
    }

    fn reset_cmd(&self) -> Option<ResetCommand> {
        None
    }

    proof fn reset_restores_observable_state(&self, before: bool, attrs: Termios) {
    }
}

/// Saves the current cursor position.
#[derive(Clone, Copy, Debug)]
pub struct SavePosition;

impl Command for SavePosition {
    open spec fn rendered(&self) -> Seq<u8> {
        seq![0x1bu8, 0x37u8]
    }

    open spec fn supported_spec(&self, p: Profile) -> bool {
        true
    }

    open spec fn capability_name(&self) -> Seq<char> {
        Seq::empty()
    }

    open spec fn reset_spec(&self) -> Option<ResetCommand> {
        None
    }

    open spec fn screen_mode_after(&self, before: bool) -> bool {
        before
    }

    open spec fn attrs_after(&self, attrs: Termios) -> Termios {
        attrs
    }

    fn size_hint(&self) -> (r: Option<usize>)
        ensures
            r is Some,
    {
        Some(2)
    }

    fn is_supported(&self, profile: &Profile) -> bool {
        true
    }

    fn queue(&self, profile: &Profile, target: &mut Vec<u8>) -> Result<(), RenderError> {
        target.push(0x1b);
        target.push(0x37);
        proof {
            assert(target@ =~= old(target)@ + self.rendered());
        }
        Ok(())
    }

    fn reset_cmd(&self) -> Option<ResetCommand> {
        None
    }

    proof fn reset_restores_observable_state(&self, before: bool, attrs: Termios) {
    }
}

/// Restores the last saved cursor position.
#[derive(Clone, Copy, Debug)]
pub struct RestorePosition;

impl Command for RestorePosition {
    open spec fn rendered(&self) -> Seq<u8> {
        seq![0x1bu8, 0x38u8]
    }

    open spec fn supported_spec(&self, p: Profile) -> bool {
        true
    }

    open spec fn capability_name(&self) -> Seq<char> {
        Seq::empty()
    }

    open spec fn reset_spec(&self) -> Option<ResetCommand> {
        None
    }

    open spec fn screen_mode_after(&self, before: bool) -> bool {
        before
    }

    open spec fn attrs_after(&self, attrs: Termios) -> Termios {
        attrs
    }

    fn size_hint(&self) -> (r: Option<usize>)
        ensures
            r is Some,
    {
        Some(2)
    }

    fn is_supported(&self, profile: &Profile) -> bool {
        true
    }

    fn queue(&self, profile: &Profile, target: &mut Vec<u8>) -> Result<(), RenderError> {
        target.push(0x1b);
        target.push(0x38);
        proof {
            assert(target@ =~= old(target)@ + self.rendered());
        }
        Ok(())
    }

    fn reset_cmd(&self) -> Option<ResetCommand> {
        None
    }

    proof fn reset_restores_observable_state(&self, before: bool, attrs: Termios) {
    }
}

} // verus!
