//! The operator's command vocabulary: a closed set of commands, each one
//! exact, case-sensitive word without arguments.
use vstd::prelude::*;

use crate::text::same_text;

verus! {

/// The value a register-write command stores into the one field it changes.
pub const REGISTER_SENTINEL: u64 = 99999999;

/// What an input line asks for.
#[derive(Clone, Copy, Debug, PartialEq, Eq, Structural)]
pub enum SessionCommand {
    /// `continue`: resume the process, then wait for its next change of state.
    Continue,
    /// `readgp`: show the general-purpose registers.
    ReadGeneralRegisters,
    /// `writegp`: write the general-purpose registers back with the stack
    /// pointer set to the sentinel.
    WriteGeneralRegisters,
    /// `readfp`: show the floating-point registers.
    ReadFloatRegisters,
    /// `writefp`: write the floating-point registers back with the control
    /// register set to the sentinel.
    WriteFloatRegisters,
    /// Any other line, which is reported and otherwise ignored.
    Unexpected,
}

/// The command a line names.
pub open spec fn command_of(line: Seq<char>) -> SessionCommand {
    if line == "continue"@ {
        SessionCommand::Continue
    } else if line == "readgp"@ {
        SessionCommand::ReadGeneralRegisters
    } else if line == "writegp"@ {
        SessionCommand::WriteGeneralRegisters
    } else if line == "readfp"@ {
        SessionCommand::ReadFloatRegisters
    } else if line == "writefp"@ {
        SessionCommand::WriteFloatRegisters
    } else {
        SessionCommand::Unexpected
    }
}

/// Reads one input line as a command; no line ends the session.
pub fn parse_command(line: &str) -> (r: SessionCommand)
    ensures
        r == command_of(line@),
{
    if same_text(line, "continue") {
        SessionCommand::Continue
    } else if same_text(line, "readgp") {
        SessionCommand::ReadGeneralRegisters
    } else if same_text(line, "writegp") {
        SessionCommand::WriteGeneralRegisters
    } else if same_text(line, "readfp") {
        SessionCommand::ReadFloatRegisters
    } else if same_text(line, "writefp") {
        SessionCommand::WriteFloatRegisters
    } else {
        SessionCommand::Unexpected
    }
}

} // verus!
