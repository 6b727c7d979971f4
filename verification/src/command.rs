//! The terminal-command abstraction: a command knows its exact byte
//! rendering, whether the attached terminal's profile supports it, and the
//! inverse command (if any) a session must replay at teardown.

use crate::profile::Profile;
use crate::termios::{termios_mostly_equal_spec, Termios};
use vstd::prelude::*;

verus! {

/// Why a command could not be rendered.
#[derive(Clone, Debug)]
pub enum RenderError {
    /// The terminal's profile does not support the command; carries the name
    /// of the missing or exceeded capability.
    Unsupported(String),
}

/// The closed set of inverse commands a session replays at teardown.
///
/// Only effects that must be undone when the session ends appear here; in the
/// current catalog that is leaving the alternate screen.
#[derive(Clone, Copy, Debug, PartialEq, Eq, Structural)]
pub enum ResetCommand {
    /// Switch back from the alternate screen buffer to the main screen.
    LeaveAlternateScreen,
}

impl ResetCommand {
    /// The exact bytes this reset command emits.
    pub open spec fn rendered(&self) -> Seq<u8> {
        match self {
            ResetCommand::LeaveAlternateScreen => seq![
                0x1bu8,
                0x5bu8,
                0x3fu8,
                0x31u8,
                0x30u8,
                0x34u8,
                0x39u8,
                0x6cu8,
            ],
        }
    }

    /// The screen-mode bit after this reset runs, given the bit before:
    /// leaving the alternate screen always lands on the main screen.
    pub open spec fn screen_mode_after(&self, before: bool) -> bool {
        match self {
            ResetCommand::LeaveAlternateScreen => false,
        }
    }

    /// The attribute snapshot after this reset runs, given the snapshot
    /// before: no reset command touches the terminal's attributes.
    pub open spec fn attrs_after(&self, attrs: Termios) -> Termios {
        attrs
    }

    /// Appends this reset command's bytes to `target`.
    pub fn queue(&self, target: &mut Vec<u8>)
        ensures
            final(target)@ == old(target)@ + self.rendered(),
    {
        match self {
            ResetCommand::LeaveAlternateScreen => {
                target.push(0x1b);
                target.push(0x5b);
                target.push(0x3f);
                target.push(0x31);
                target.push(0x30);
                target.push(0x34);
                target.push(0x39);
                target.push(0x6c);
            },
        }
        proof {
            assert(target@ =~= old(target)@ + self.rendered());
        }
    }
}

/// A unit of terminal effect.
///
/// Every command pins down the exact bytes it renders (`rendered`), the
/// profiles that support it (`supported_spec`), the inverse it leaves behind
/// (`reset_spec`), and how it moves the screen-mode bit
/// (`screen_mode_after`).  The executable methods are each held to those
/// specifications, so a size hint of `Some(n)` means the rendering is exactly
/// `n` bytes, and an unsupported command writes nothing at all.
pub trait Command: Sized {
    /// The exact bytes this command renders.
    spec fn rendered(&self) -> Seq<u8>;

    /// Whether the profile `p` supports this command, parameter bounds
    /// included.
    spec fn supported_spec(&self, p: Profile) -> bool;

    /// The capability name reported when the command is unsupported.
    spec fn capability_name(&self) -> Seq<char>;

    /// The inverse command a session must replay at teardown, if any.
    spec fn reset_spec(&self) -> Option<ResetCommand>;

    /// The screen-mode bit after this command's effect, given the bit
    /// before: `true` means the alternate screen is active.
    spec fn screen_mode_after(&self, before: bool) -> bool;

    /// The attribute snapshot after this command's effect, given the
    /// snapshot before.  Attribute changes are the session's business, not a
    /// command's: every command of the catalog leaves the attributes alone.
    spec fn attrs_after(&self, attrs: Termios) -> Termios;

    /// An advisory byte count for buffer pre-sizing; when it answers
    /// `Some(n)`, the rendering is exactly `n` bytes long.
    fn size_hint(&self) -> (r: Option<usize>)
        ensures
            r matches Some(n) ==> n == self.rendered().len(),
    ;

    /// Answers whether the profile supports this command, without side
    /// effects.
    fn is_supported(&self, profile: &Profile) -> (r: bool)
        ensures
            r == self.supported_spec(*profile),
    ;

    /// Renders this command to `target`: appends exactly `rendered()` when
    /// the profile supports the command, and appends nothing otherwise.
    fn queue(&self, profile: &Profile, target: &mut Vec<u8>) -> (r: Result<(), RenderError>)
        ensures
            r is Ok <==> self.supported_spec(*profile),
            r is Ok ==> final(target)@ == old(target)@ + self.rendered(),
            r is Err ==> final(target)@ == old(target)@,
            r matches Err(RenderError::Unsupported(name)) ==> name@ == self.capability_name(),
    ;

    /// The inverse command to push on the session's reset stack, if any.
    fn reset_cmd(&self) -> (r: Option<ResetCommand>)
        ensures
            r == self.reset_spec(),
    ;

    /// Law: rendering a command and then its inverse restores the
    /// observable state.  The attributes after the round trip stay
    /// mostly-equal to the attributes before, and the screen-mode bit
    /// returns to its old value, provided the session did not already sit
    /// in the alternate screen.
    proof fn reset_restores_observable_state(&self, before: bool, attrs: Termios)
        requires
            !before,
        ensures
            match self.reset_spec() {
                Some(rc) => rc.screen_mode_after(self.screen_mode_after(before)) == before
                    && termios_mostly_equal_spec(rc.attrs_after(self.attrs_after(attrs)), attrs),
                None => true,
            },
    ;
}

/// Appends a byte slice to `target`.
pub(crate) fn push_bytes(target: &mut Vec<u8>, bytes: &[u8])
    ensures
        final(target)@ == old(target)@ + bytes@,
{
    let n = bytes.len();
    let mut i: usize = 0;
    while i < n
        invariant
            i <= n == bytes@.len(),
            target@ == old(target)@ + bytes@.take(i as int),
        decreases n - i,
    {
        target.push(bytes[i]);
        proof {
            assert(target@ =~= old(target)@ + bytes@.take(i as int + 1));
        }
        i += 1;
    }
    proof {
        assert(bytes@.take(n as int) =~= bytes@);
    }
}

} // verus!
