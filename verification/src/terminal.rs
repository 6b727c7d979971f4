//! The session bound to one terminal: it owns the capability profile, the
//! attribute snapshot taken at construction, the pending output bytes, and
//! the LIFO stack of inverse commands replayed at teardown.
//!
//! The session is a decision core: the process-wide primitives that read and
//! write the device (attribute get/set, stream writes) live outside the
//! library and are driven by it.  Every method here either renders bytes into
//! the session's output buffer or maps the attributes observed on the device
//! to the attributes that must be applied next.

use crate::command::{Command, RenderError, ResetCommand};
use crate::profile::Profile;
use crate::termios::{make_raw_spec, termios_mostly_equal, termios_mostly_equal_spec, Termios};
use vstd::prelude::*;

verus! {

/// Why a request to set the terminal's attributes did not take effect as
/// asked.
#[derive(Clone, Copy, Debug, PartialEq, Eq, Structural)]
pub enum SetAttrsError {
    /// The device coerced the requested attributes to something else; carries
    /// the attributes actually observed after the set.
    Unsupported(Termios),
    /// The underlying attribute primitive failed with the given OS error
    /// code.
    Other(i32),
}

/// The reset entries a command leaves behind: one stack entry for a command
/// with an inverse, none otherwise.
pub open spec fn reset_entries(r: Option<ResetCommand>) -> Seq<ResetCommand> {
    match r {
        Some(rc) => seq![rc],
        None => Seq::empty(),
    }
}

/// The bytes a batch renders: each command's rendering, in order.
pub open spec fn batch_rendered<C: Command>(cmds: Seq<C>) -> Seq<u8>
    decreases cmds.len(),
{
    if cmds.len() == 0 {
        Seq::empty()
    } else {
        batch_rendered(cmds.drop_last()) + cmds.last().rendered()
    }
}

/// The reset entries a batch pushes: each command's inverse, in order,
/// skipping commands without one.
pub open spec fn batch_resets<C: Command>(cmds: Seq<C>) -> Seq<ResetCommand>
    decreases cmds.len(),
{
    if cmds.len() == 0 {
        Seq::empty()
    } else {
        batch_resets(cmds.drop_last()) + reset_entries(cmds.last().reset_spec())
    }
}

/// Whether the profile supports every command of the batch.
pub open spec fn batch_supported<C: Command>(cmds: Seq<C>, p: Profile) -> bool {
    forall|i: int| 0 <= i < cmds.len() ==> (#[trigger] cmds[i]).supported_spec(p)
}

/// The bytes teardown emits for a reset stack: the entries' renderings in
/// LIFO order, most recently pushed first.
pub open spec fn teardown_bytes(stack: Seq<ResetCommand>) -> Seq<u8>
    decreases stack.len(),
{
    if stack.len() == 0 {
        Seq::empty()
    } else {
        stack.last().rendered() + teardown_bytes(stack.drop_last())
    }
}

/// `bytes` repeated `n` times.
pub open spec fn repeated(bytes: Seq<u8>, n: nat) -> Seq<u8>
    decreases n,
{
    if n == 0 {
        Seq::empty()
    } else {
        bytes + repeated(bytes, (n - 1) as nat)
    }
}

/// The attributes a disable-raw-mode request applies, given whatever
/// attributes currently sit on the device: always the snapshot taken at
/// construction, never an intermediate state.
pub open spec fn raw_mode_disable_spec(t: Terminal, current: Termios) -> Termios {
    t.original_termios
}

/// A handle to one terminal device.
///
/// The session owns the capability profile loaded at construction, the
/// attribute snapshot the device must return to, the stack of inverse
/// commands still owed, and the bytes rendered but not yet handed to the
/// device.
pub struct Terminal {
    /// What the attached terminal supports.
    pub profile: Profile,
    /// The attribute snapshot taken at construction; teardown restores it.
    pub original_termios: Termios,
    /// The inverse commands owed to the terminal, replayed in LIFO order at
    /// teardown.
    pub commands_to_reset: Vec<ResetCommand>,
    /// The bytes rendered so far and not yet handed to the device.
    pub output: Vec<u8>,
}

impl Terminal {
    /// Creates a session over the given profile and attribute snapshot, with
    /// nothing rendered and nothing owed.
    pub fn new(profile: Profile, original_termios: Termios) -> (r: Terminal)
        ensures
            r.profile == profile,
            r.original_termios == original_termios,
            r.commands_to_reset@ == Seq::<ResetCommand>::empty(),
            r.output@ == Seq::<u8>::empty(),
    {
        Terminal { profile, original_termios, commands_to_reset: Vec::new(), output: Vec::new() }
    }

    /// Answers whether the session's terminal supports the given command,
    /// without side effects.
    pub fn is_supported<C: Command>(&self, command: &C) -> (r: bool)
        ensures
            r == command.supported_spec(self.profile),
    {
        command.is_supported(&self.profile)
    }

    /// Queues a command: records its inverse first — so that even a failed
    /// render leaves the reset obligation in place — then renders the
    /// command's bytes to the output.  An unsupported command contributes no
    /// bytes.
    pub fn queue<C: Command>(&mut self, command: C) -> (r: Result<(), RenderError>)
        ensures
            final(self).profile == old(self).profile,
            final(self).original_termios == old(self).original_termios,
            final(self).commands_to_reset@ == old(self).commands_to_reset@ + reset_entries(
                command.reset_spec(),
            ),
            r is Ok <==> command.supported_spec(old(self).profile),
            r is Ok ==> final(self).output@ == old(self).output@ + command.rendered(),
            r is Err ==> final(self).output@ == old(self).output@,
            r matches Err(RenderError::Unsupported(name)) ==> name@ == command.capability_name(),
    {
        if let Some(rc) = command.reset_cmd() {
            self.commands_to_reset.push(rc);
        }
        let r = command.queue(&self.profile, &mut self.output);
        proof {
            assert(self.commands_to_reset@ =~= old(self).commands_to_reset@ + reset_entries(
                command.reset_spec(),
            ));
        }
        r
    }

    /// Queues a batch of commands through one intermediate buffer, sized by
    /// the commands' size hints (64 bytes for a command without one).  The
    /// buffer reaches the output only when every command rendered: one
    /// unsupported command discards the whole buffer, so none of the batch's
    /// bytes reach the device.  Inverses of the commands before the failing
    /// one stay recorded.
    pub fn queue_all<C: Command>(&mut self, commands: &Vec<C>) -> (r: Result<(), RenderError>)
        ensures
            final(self).profile == old(self).profile,
            final(self).original_termios == old(self).original_termios,
            r is Ok <==> batch_supported(commands@, old(self).profile),
            r is Ok ==> final(self).output@ == old(self).output@ + batch_rendered(commands@),
            r is Ok ==> final(self).commands_to_reset@ == old(self).commands_to_reset@
                + batch_resets(commands@),
            r is Err ==> final(self).output@ == old(self).output@,
            r matches Err(RenderError::Unsupported(name)) ==> exists|k: int|
                0 <= k < commands@.len() && batch_supported(commands@.take(k), old(self).profile)
                    && !(#[trigger] commands@[k]).supported_spec(old(self).profile) && name@
                    == commands@[k].capability_name() && final(self).commands_to_reset@ == old(
                    self,
                ).commands_to_reset@ + batch_resets(commands@.take(k)),
    {
        let count = commands.len();
        let mut size: usize = 0;
        let mut j: usize = 0;
        while j < count
            invariant
                count == commands@.len(),
            decreases count - j,
        {
            let hint = match commands[j].size_hint() {
                Some(h) => h,
                None => 64,
            };
            size = if size <= usize::MAX - hint {
                size + hint
            } else {
                usize::MAX
            };
            j += 1;
        }
        let mut buffer: Vec<u8> = Vec::with_capacity(size);
        let mut i: usize = 0;
        while i < count
            invariant
                i <= count == commands@.len(),
                batch_supported(commands@.take(i as int), old(self).profile),
                buffer@ == batch_rendered(commands@.take(i as int)),
                self.profile == old(self).profile,
                self.original_termios == old(self).original_termios,
                self.output@ == old(self).output@,
                self.commands_to_reset@ == old(self).commands_to_reset@ + batch_resets(
                    commands@.take(i as int),
                ),
            decreases count - i,
        {
            let cmd = &commands[i];
            match cmd.queue(&self.profile, &mut buffer) {
                Ok(()) => {},
                Err(e) => {
                    proof {
                        let k = i as int;
                        assert(!commands@[k].supported_spec(old(self).profile));
                    }
                    return Err(e);
                },
            }
            if let Some(rc) = cmd.reset_cmd() {
                self.commands_to_reset.push(rc);
            }
            proof {
                assert(commands@.take(i as int + 1).drop_last() =~= commands@.take(i as int));
                assert(commands@.take(i as int + 1).last() == commands@[i as int]);
                assert(buffer@ =~= batch_rendered(commands@.take(i as int + 1)));
                assert(self.commands_to_reset@ =~= old(self).commands_to_reset@ + batch_resets(
                    commands@.take(i as int + 1),
                ));
            }
            i += 1;
        }
        proof {
            assert(commands@.take(count as int) =~= commands@);
        }
        self.output.append(&mut buffer);
        Ok(())
    }

    /// The attributes that switch the terminal into raw mode, derived from
    /// the attributes currently on the device.
    pub fn enable_raw_mode(&self, current: &Termios) -> (r: Termios)
        ensures
            r == make_raw_spec(*current),
    {
        let mut attrs = *current;
        attrs.make_raw();
        attrs
    }

    /// The attributes that leave raw mode: always the snapshot taken at
    /// construction, whatever the device currently holds, so repeated
    /// enable/disable cycles cannot drift.
    pub fn disable_raw_mode(&self) -> (r: Termios)
        ensures
            forall|current: Termios| r == raw_mode_disable_spec(*self, current),
    {
        self.original_termios
    }

    /// Answers whether the device, showing the given attributes, is away
    /// from the snapshot taken at construction.
    pub fn query_raw_mode(&self, current: &Termios) -> (r: bool)
        ensures
            r == !termios_mostly_equal_spec(*current, self.original_termios),
    {
        !termios_mostly_equal(current, &self.original_termios)
    }

    /// Decides the outcome of an attribute-set request from what the device
    /// reports afterwards: success when the observed attributes match the
    /// requested ones in every field that matters, and otherwise the
    /// observed attributes themselves, so the caller learns the true
    /// resulting state.
    pub fn set_term_attrs(&self, requested: &Termios, observed: &Termios) -> (r: Result<
        (),
        SetAttrsError,
    >)
        ensures
            r == (if termios_mostly_equal_spec(*requested, *observed) {
                Ok::<(), SetAttrsError>(())
            } else {
                Err::<(), SetAttrsError>(SetAttrsError::Unsupported(*observed))
            }),
    {
        if termios_mostly_equal(requested, observed) {
            Ok(())
        } else {
            Err(SetAttrsError::Unsupported(*observed))
        }
    }

    /// Hands out the bytes rendered so far and leaves the output empty.
    pub fn take_output(&mut self) -> (r: Vec<u8>)
        ensures
            r@ == old(self).output@,
            final(self).output@ == Seq::<u8>::empty(),
            final(self).profile == old(self).profile,
            final(self).original_termios == old(self).original_termios,
            final(self).commands_to_reset@ == old(self).commands_to_reset@,
    {
        let mut drained: Vec<u8> = Vec::new();
        drained.append(&mut self.output);
        proof {
            assert(drained@ =~= old(self).output@);
        }
        drained
    }

    /// Tears the session down: renders every owed inverse command to the
    /// output in LIFO order, clears the stack, and returns the attribute
    /// snapshot the device must be restored to.  Teardown leaves nothing
    /// owed, however many commands were queued.
    pub fn teardown(&mut self) -> (r: Termios)
        ensures
            r == old(self).original_termios,
            final(self).profile == old(self).profile,
            final(self).original_termios == old(self).original_termios,
            final(self).commands_to_reset@ == Seq::<ResetCommand>::empty(),
            final(self).output@ == old(self).output@ + teardown_bytes(
                old(self).commands_to_reset@,
            ),
    {
        while self.commands_to_reset.len() > 0
            invariant
                self.profile == old(self).profile,
                self.original_termios == old(self).original_termios,
                old(self).output@ + teardown_bytes(old(self).commands_to_reset@) == self.output@
                    + teardown_bytes(self.commands_to_reset@),
            decreases self.commands_to_reset@.len(),
        {
            let ghost prior_stack = self.commands_to_reset@;
            let ghost prior_output = self.output@;
            if let Some(rc) = self.commands_to_reset.pop() {
                rc.queue(&mut self.output);
                proof {
                    assert(self.output@ + teardown_bytes(self.commands_to_reset@) =~= prior_output
                        + teardown_bytes(prior_stack));
                }
            }
        }
        proof {
            assert(self.output@ + teardown_bytes(self.commands_to_reset@) =~= self.output@);
        }
        self.original_termios
    }
}

/// Law: a reset stack holding only leave-alternate-screen entries tears down
/// to the leave sequence emitted exactly once per entry.  Queuing the
/// enter-alternate-screen command pushes exactly one such entry each time, so
/// entering the alternate screen `n` times and tearing down emits the leave
/// sequence exactly `n` times.
pub proof fn lemma_alternate_screen_round_trip(stack: Seq<ResetCommand>)
    requires
        forall|i: int| 0 <= i < stack.len() ==> stack[i] == ResetCommand::LeaveAlternateScreen,
    ensures
        teardown_bytes(stack) == repeated(ResetCommand::LeaveAlternateScreen.rendered(), stack.len()),
    decreases stack.len(),
{
    if stack.len() > 0 {
        lemma_alternate_screen_round_trip(stack.drop_last());
        assert(teardown_bytes(stack) =~= repeated(
            ResetCommand::LeaveAlternateScreen.rendered(),
            stack.len(),
        ));
    }
}

/// Law: disabling raw mode twice in a row lands on the same attributes as
/// disabling it once, whatever state the first disable left the device in.
pub proof fn lemma_disable_raw_mode_idempotent(t: Terminal, current: Termios)
    ensures
        raw_mode_disable_spec(t, raw_mode_disable_spec(t, current)) == raw_mode_disable_spec(
            t,
            current,
        ),
{
}

/// Fires the terminal bell.  Usually produces a sound or flashes the window
/// to draw attention.
#[derive(Clone, Copy, Debug)]
pub struct TerminalBell;

impl Command for TerminalBell {
    open spec fn rendered(&self) -> Seq<u8> {
        seq![0x07u8]
    }

    open spec fn supported_spec(&self, p: Profile) -> bool {
        true
    }

    open spec fn capability_name(&self) -> Seq<char> {
        Seq::empty()
    }

    open spec fn reset_spec(&self) -> Option<ResetCommand> {
        None
    }

    open spec fn screen_mode_after(&self, before: bool) -> bool {
        before
    }

    open spec fn attrs_after(&self, attrs: Termios) -> Termios {
        attrs
    }

    fn size_hint(&self) -> (r: Option<usize>)
        ensures
            r is Some,
    {
        Some(1)
    }

    fn is_supported(&self, profile: &Profile) -> bool {
        true
    }

    fn queue(&self, profile: &Profile, target: &mut Vec<u8>) -> Result<(), RenderError> {
        target.push(0x07);
        proof {
            assert(target@ =~= old(target)@ + self.rendered());
        }
        Ok(())
    }

    fn reset_cmd(&self) -> Option<ResetCommand> {
        None
    }

    proof fn reset_restores_observable_state(&self, before: bool, attrs: Termios) {
    }
}

/// Switches to the alternate screen buffer.
///
/// The terminal hides the main screen's contents and shows the alternate
/// screen; leaving clears the alternate screen and switches back.  The
/// command is gated on the profile's alternate-screen capability, and it
/// leaves an inverse behind: the session replays a leave command at
/// teardown for every enter queued.
#[derive(Clone, Copy, Debug)]
pub struct EnterAlternateScreen;

impl Command for EnterAlternateScreen {
    open spec fn rendered(&self) -> Seq<u8> {
        seq![0x1bu8, 0x5bu8, 0x3fu8, 0x31u8, 0x30u8, 0x34u8, 0x39u8, 0x68u8]
    }

    open spec fn supported_spec(&self, p: Profile) -> bool {
        p.alternate_screen
    }

    open spec fn capability_name(&self) -> Seq<char> {
        "enter_ca_mode"@
    }

    open spec fn reset_spec(&self) -> Option<ResetCommand> {
        Some(ResetCommand::LeaveAlternateScreen)
    }

    open spec fn screen_mode_after(&self, before: bool) -> bool {
        true
    }

    open spec fn attrs_after(&self, attrs: Termios) -> Termios {
        attrs
    }

    fn size_hint(&self) -> (r: Option<usize>)
        ensures
            r is Some,
    {
        Some(8)
    }

    fn is_supported(&self, profile: &Profile) -> bool {
        profile.alternate_screen
    }

    fn queue(&self, profile: &Profile, target: &mut Vec<u8>) -> Result<(), RenderError> {
        if !profile.alternate_screen {
            return Err(RenderError::Unsupported("enter_ca_mode".to_owned()));
        }
        target.push(0x1b);
        target.push(0x5b);
        target.push(0x3f);
        target.push(0x31);
        target.push(0x30);
        target.push(0x34);
        target.push(0x39);
        target.push(0x68);
        proof {
            assert(target@ =~= old(target)@ + self.rendered());
        }
        Ok(())
    }

    fn reset_cmd(&self) -> Option<ResetCommand> {
        Some(ResetCommand::LeaveAlternateScreen)
    }

    proof fn reset_restores_observable_state(&self, before: bool, attrs: Termios) {
    }
}

/// Switches back from the alternate screen buffer to the main screen.
#[derive(Clone, Copy, Debug)]
pub struct LeaveAlternateScreen;

impl Command for LeaveAlternateScreen {
    open spec fn rendered(&self) -> Seq<u8> {
        seq![0x1bu8, 0x5bu8, 0x3fu8, 0x31u8, 0x30u8, 0x34u8, 0x39u8, 0x6cu8]
    }

    open spec fn supported_spec(&self, p: Profile) -> bool {
        p.alternate_screen
    }

    open spec fn capability_name(&self) -> Seq<char> {
        "exit_ca_mode"@
    }

    open spec fn reset_spec(&self) -> Option<ResetCommand> {
        None
    }

    open spec fn screen_mode_after(&self, before: bool) -> bool {
        false
    }

    open spec fn attrs_after(&self, attrs: Termios) -> Termios {
        attrs
    }

    fn size_hint(&self) -> (r: Option<usize>)
        ensures
            r is Some,
    {
        Some(8)
    }

    fn is_supported(&self, profile: &Profile) -> bool {
        profile.alternate_screen
    }

    fn queue(&self, profile: &Profile, target: &mut Vec<u8>) -> Result<(), RenderError> {
        if !profile.alternate_screen {
            return Err(RenderError::Unsupported("exit_ca_mode".to_owned()));
        }
        target.push(0x1b);
        target.push(0x5b);
        target.push(0x3f);
        target.push(0x31);
        target.push(0x30);
        target.push(0x34);
        target.push(0x39);
        target.push(0x6c);
        proof {
            assert(target@ =~= old(target)@ + self.rendered());
        }
        Ok(())
    }

    fn reset_cmd(&self) -> Option<ResetCommand> {
        None
    }

    proof fn reset_restores_observable_state(&self, before: bool, attrs: Termios) {
    }
}

} // verus!
