//! Erasure commands.  Each renders a fixed ANSI escape sequence; none is
//! capability-gated and none is reversible, since the erased contents cannot
//! be brought back.

use crate::command::{Command, RenderError, ResetCommand};
use crate::profile::Profile;
use crate::termios::Termios;
use vstd::prelude::*;

verus! {

/// Equivalent to pressing the backspace key on a keyboard.
#[derive(Clone, Copy, Debug)]
pub struct Backspace;

impl Command for Backspace {
    open spec fn rendered(&self) -> Seq<u8> {
        seq![0x08u8]
    }

    open spec fn supported_spec(&self, p: Profile) -> bool {
        true
    }

    open spec fn capability_name(&self) -> Seq<char> {
        Seq::empty()
    }

    open spec fn reset_spec(&self) -> Option<ResetCommand> {
        None
    }

    open spec fn screen_mode_after(&self, before: bool) -> bool {
        before
    }

    open spec fn attrs_after(&self, attrs: Termios) -> Termios {
        attrs
    }

    fn size_hint(&self) -> (r: Option<usize>)
        ensures
            r is Some,
    {
        Some(1)
    }

    fn is_supported(&self, profile: &Profile) -> bool {
        true
    }

    fn queue(&self, profile: &Profile, target: &mut Vec<u8>) -> Result<(), RenderError> {
        target.push(0x08);
        proof {
            assert(target@ =~= old(target)@ + self.rendered());
        }
        Ok(())
    }

    fn reset_cmd(&self) -> Option<ResetCommand> {
        None
    }

    proof fn reset_restores_observable_state(&self, before: bool, attrs: Termios) {
    }
}

/// Equivalent to pressing the delete key on a keyboard (not to be confused
/// with backspace).
#[derive(Clone, Copy, Debug)]
pub struct DeleteChar;

impl Command for DeleteChar {
    open spec fn rendered(&self) -> Seq<u8> {
        seq![0x7fu8]
    }

    open spec fn supported_spec(&self, p: Profile) -> bool {
        true
    }

    open spec fn capability_name(&self) -> Seq<char> {
        Seq::empty()
    }

    open spec fn reset_spec(&self) -> Option<ResetCommand> {
        None
    }

    open spec fn screen_mode_after(&self, before: bool) -> bool {
        before
    }

    open spec fn attrs_after(&self, attrs: Termios) -> Termios {
        attrs
    }

    fn size_hint(&self) -> (r: Option<usize>)
        ensures
            r is Some,
    {
        Some(1)
    }

    fn is_supported(&self, profile: &Profile) -> bool {
        true
    }

    fn queue(&self, profile: &Profile, target: &mut Vec<u8>) -> Result<(), RenderError> {
        target.push(0x7f);
        proof {
            assert(target@ =~= old(target)@ + self.rendered());
        }
        Ok(())
    }

    fn reset_cmd(&self) -> Option<ResetCommand> {
        None
    }

    proof fn reset_restores_observable_state(&self, before: bool, attrs: Termios) {
    }
}

/// Clears everything from the cursor to the end of the screen.
#[derive(Clone, Copy, Debug)]
pub struct ClearCursorToEndOfScreen;

impl Command for ClearCursorToEndOfScreen {
    open spec fn rendered(&self) -> Seq<u8> {
        seq![0x1bu8, 0x5bu8, 0x30u8, 0x4au8]
    }

    open spec fn supported_spec(&self, p: Profile) -> bool {
        true
    }

    open spec fn capability_name(&self) -> Seq<char> {
        Seq::empty()
    }

    open spec fn reset_spec(&self) -> Option<ResetCommand> {
        None
    }

    open spec fn screen_mode_after(&self, before: bool) -> bool {
        before
    }

    open spec fn attrs_after(&self, attrs: Termios) -> Termios {
        attrs
    }

    fn size_hint(&self) -> (r: Option<usize>)
        ensures
            r is Some,
    {
        Some(4)
    }

    fn is_supported(&self, profile: &Profile) -> bool {
        true
    }

    fn queue(&self, profile: &Profile, target: &mut Vec<u8>) -> Result<(), RenderError> {
        target.push(0x1b);
        target.push(0x5b);
        target.push(0x30);
        target.push(0x4a);
        proof {
            assert(target@ =~= old(target)@ + self.rendered());
        }
        Ok(())
    }

    fn reset_cmd(&self) -> Option<ResetCommand> {
        None
    }

    proof fn reset_restores_observable_state(&self, before: bool, attrs: Termios) {
    }
}

/// Clears everything from the start of the screen to the cursor.
#[derive(Clone, Copy, Debug)]
pub struct ClearStartOfScreenToCursor;

impl Command for ClearStartOfScreenToCursor {
    open spec fn rendered(&self) -> Seq<u8> {
        seq![0x1bu8, 0x5bu8, 0x31u8, 0x4au8]
    }

    open spec fn supported_spec(&self, p: Profile) -> bool {
        true
    }

    open spec fn capability_name(&self) -> Seq<char> {
        Seq::empty()
    }

    open spec fn reset_spec(&self) -> Option<ResetCommand> {
        None
    }

    open spec fn screen_mode_after(&self, before: bool) -> bool {
        before
    }

    open spec fn attrs_after(&self, attrs: Termios) -> Termios {
        attrs
    }

    fn size_hint(&self) -> (r: Option<usize>)
        ensures
            r is Some,
    {
        Some(4)
    }

    fn is_supported(&self, profile: &Profile) -> bool {
        true
    }

    fn queue(&self, profile: &Profile, target: &mut Vec<u8>) -> Result<(), RenderError> {
        target.push(0x1b);
        target.push(0x5b);
        target.push(0x31);
        target.push(0x4a);
        proof {
            assert(target@ =~= old(target)@ + self.rendered());
        }
        Ok(())
    }

    fn reset_cmd(&self) -> Option<ResetCommand> {
        None
    }

    proof fn reset_restores_observable_state(&self, before: bool, attrs: Termios) {
    }
}

/// Clears the entire screen.
///
/// Best used while the alternate screen is enabled, so the contents of the
/// main screen stay undisturbed.  Some terminals also move the cursor to the
/// home position.
#[derive(Clone, Copy, Debug)]
pub struct ClearScreen;

impl Command for ClearScreen {
    open spec fn rendered(&self) -> Seq<u8> {
        seq![0x1bu8, 0x5bu8, 0x32u8, 0x4au8]
    }

    open spec fn supported_spec(&self, p: Profile) -> bool {
        true
    }

    open spec fn capability_name(&self) -> Seq<char> {
        Seq::empty()
    }

    open spec fn reset_spec(&self) -> Option<ResetCommand> {
        None
    }

    open spec fn screen_mode_after(&self, before: bool) -> bool {
        before
    }

    open spec fn attrs_after(&self, attrs: Termios) -> Termios {
        attrs
    }

    fn size_hint(&self) -> (r: Option<usize>)
        ensures
            r is Some,
    {
        Some(4)
    }

    fn is_supported(&self, profile: &Profile) -> bool {
        true
    }

    fn queue(&self, profile: &Profile, target: &mut Vec<u8>) -> Result<(), RenderError> {
        target.push(0x1b);
        target.push(0x5b);
        target.push(0x32);
        target.push(0x4a);
        proof {
            assert(target@ =~= old(target)@ + self.rendered());
        }
        Ok(())
    }

    fn reset_cmd(&self) -> Option<ResetCommand> {
        None
    }

    proof fn reset_restores_observable_state(&self, before: bool, attrs: Termios) {
    }
}

/// Clears everything from the cursor to the end of the current line.
#[derive(Clone, Copy, Debug)]
pub struct ClearCursorToEndOfLine;

impl Command for ClearCursorToEndOfLine {
    open spec fn rendered(&self) -> Seq<u8> {
        seq![0x1bu8, 0x5bu8, 0x30u8, 0x4bu8]
    }

    open spec fn supported_spec(&self, p: Profile) -> bool {
        true
    }

    open spec fn capability_name(&self) -> Seq<char> {
        Seq::empty()
    }

    open spec fn reset_spec(&self) -> Option<ResetCommand> {
        None
    }

    open spec fn screen_mode_after(&self, before: bool) -> bool {
        before
    }

    open spec fn attrs_after(&self, attrs: Termios) -> Termios {
        attrs
    }

    fn size_hint(&self) -> (r: Option<usize>)
        ensures
            r is Some,
    {
        Some(4)
    }

    fn is_supported(&self, profile: &Profile) -> bool {
        true
    }

    fn queue(&self, profile: &Profile, target: &mut Vec<u8>) -> Result<(), RenderError> {
        target.push(0x1b);
        target.push(0x5b);
        target.push(0x30);
        target.push(0x4b);
        proof {
            assert(target@ =~= old(target)@ + self.rendered());
        }
        Ok(())
    }

    fn reset_cmd(&self) -> Option<ResetCommand> {
        None
    }

    proof fn reset_restores_observable_state(&self, before: bool, attrs: Termios) {
    }
}

/// Clears everything from the start of the current line to the cursor.
#[derive(Clone, Copy, Debug)]
pub struct ClearStartOfLineToCursor;

impl Command for ClearStartOfLineToCursor {
    open spec fn rendered(&self) -> Seq<u8> {
        seq![0x1bu8, 0x5bu8, 0x31u8, 0x4bu8]
    }

    open spec fn supported_spec(&self, p: Profile) -> bool {
        true
    }

    open spec fn capability_name(&self) -> Seq<char> {
        Seq::empty()
    }

    open spec fn reset_spec(&self) -> Option<ResetCommand> {
        None
    }

    open spec fn screen_mode_after(&self, before: bool) -> bool {
        before
    }

    open spec fn attrs_after(&self, attrs: Termios) -> Termios {
        attrs
    }

    fn size_hint(&self) -> (r: Option<usize>)
        ensures
            r is Some,
    {
        Some(4)
    }

    fn is_supported(&self, profile: &Profile) -> bool {
        true
    }

    fn queue(&self, profile: &Profile, target: &mut Vec<u8>) -> Result<(), RenderError> {
        target.push(0x1b);
        target.push(0x5b);
        target.push(0x31);
        target.push(0x4b);
        proof {
            assert(target@ =~= old(target)@ + self.rendered());
        }
        Ok(())
    }

    fn reset_cmd(&self) -> Option<ResetCommand> {
        None
    }

    proof fn reset_restores_observable_state(&self, before: bool, attrs: Termios) {
    }
}

/// Clears the contents of the current line.
#[derive(Clone, Copy, Debug)]
pub struct ClearLine;

impl Command for ClearLine {
    open spec fn rendered(&self) -> Seq<u8> {
        seq![0x1bu8, 0x5bu8, 0x32u8, 0x4bu8]
    }

    open spec fn supported_spec(&self, p: Profile) -> bool {
        true
    }

    open spec fn capability_name(&self) -> Seq<char> {
        Seq::empty()
    }

    open spec fn reset_spec(&self) -> Option<ResetCommand> {
        None
    }

    open spec fn screen_mode_after(&self, before: bool) -> bool {
        before
    }

    open spec fn attrs_after(&self, attrs: Termios) -> Termios {
        attrs
    }

    fn size_hint(&self) -> (r: Option<usize>)
        ensures
            r is Some,
    {
        Some(4)
    }

    fn is_supported(&self, profile: &Profile) -> bool {
        true
    }

    fn queue(&self, profile: &Profile, target: &mut Vec<u8>) -> Result<(), RenderError> {
        target.push(0x1b);
        target.push(0x5b);
        target.push(0x32);
        target.push(0x4b);
        proof {
            assert(target@ =~= old(target)@ + self.rendered());
        }
        Ok(())
    }

    fn reset_cmd(&self) -> Option<ResetCommand> {
        None
    }

    proof fn reset_restores_observable_state(&self, before: bool, attrs: Termios) {
    }
}

} // verus!
