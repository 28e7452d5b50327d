use vstd::prelude::*;

pub mod debugger;
pub mod renderer;
pub mod system;
pub mod timer;

verus! {

/// Why the machine stopped.
#[derive(Debug, Clone, Copy, PartialEq, Eq, Structural)]
pub enum Fatal {
    /// An opcode byte with no instruction.
    Decode(u8),
    /// A write to program memory, or an address no region answers.
    Memory(u16),
    /// An instruction or register this machine does not model.
    Unimplemented(u16),
    /// An instruction given an addressing mode that it has no meaning with.
    Operand,
}

} // verus!
