use vstd::prelude::*;
use crate::instruction::Instruction;

verus! {

/// The fatal conditions that stop the machine.
#[derive(Clone, Copy, Debug, PartialEq, Eq, Structural)]
pub enum Fault {
    /// A call was made with all sixteen return addresses in use.
    StackOverflow,
    /// A return was made with no return address on the stack.
    StackUnderflow,
    /// The opcode matches none of the documented encodings.
    InvalidOpcode(u16),
    /// The instruction belongs to the extended set, which is recognised but
    /// not executed.
    Unsupported(Instruction),
    /// The program does not fit between the load offset and the end of memory.
    ProgramTooLarge,
}

} // verus!
