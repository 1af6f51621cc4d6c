//! A verified CHIP-8 virtual machine core: instruction decoding, the
//! fetch/execute cycle with decoupled CPU and timer clocks, the memory and
//! register model, the call stack, and the XOR sprite display.

use vstd::prelude::*;

pub mod instructions;
pub mod chip8;
pub mod display;
pub mod main_memory;
pub mod registers;
pub mod stack;

pub use chip8::Chip8;
pub use instructions::Instruction;
pub use instructions::parse_opcode;
pub use registers::Registers;
pub use stack::Stack;
pub use main_memory::MainMemory;
pub use display::Display;

verus! {

/// The error conditions of the virtual machine. Every one of them is fatal to
/// the running program: the host is expected to stop the machine when a cycle
/// reports one.
#[derive(Debug, Clone, Copy, PartialEq, Eq, Structural)]
pub enum VmError {
    /// A register argument outside `[0, 15]`.
    InvalidRegisterIndex,
    /// An address outside the addressable space, or a program counter set
    /// below the program load offset.
    MemoryBoundsViolation,
    /// A call was made with sixteen return addresses already on the stack.
    StackOverflow,
    /// A return was executed with no return address on the stack.
    StackUnderflow,
    /// The opcode matches no defined instruction pattern.
    UnknownOpcode(u16),
    /// The program counter ran past the end of memory without a halting
    /// instruction.
    ProgramExhausted,
}

} // verus!
