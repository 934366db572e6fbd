//! What can go wrong while a script runs.

use vstd::prelude::*;

verus! {

/// Why a procedure invocation was abandoned.
///
/// A failure ends the invocation that met it and nothing else: other scripts
/// and all sequences go on. The machine is left as it stood before the
/// failing instruction, so its program counter names that instruction.
#[derive(Clone, Copy, Debug, PartialEq, Eq, Structural)]
pub enum Error {
    /// An instruction needs more values or frames than the current call has.
    StackUnderflow,
    /// An instruction found a value of a kind it cannot work on, or an
    /// operand whose value it cannot accept.
    BadOperandType,
    /// The instruction is known but nothing executes it.
    UnimplementedOpcode,
    /// A variable index lies outside the declared size of its scope.
    OutOfBoundsVariable,
    /// A procedure that must run to completion asked to be suspended.
    IllegalSuspend,
    /// The code stream holds a number that is no instruction's code, or ends
    /// inside an instruction.
    MalformedCode,
}

/// The points at which a script may be suspended.
#[derive(Clone, Copy, Debug, PartialEq, Eq, Structural)]
pub enum Suspend {
    /// The script has shown its dialog and waits for the player's choice.
    GsayEnd,
}

} // verus!
