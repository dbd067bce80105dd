//! Execution core of a stack-based virtual machine over a prime field.
//!
//! A [`MidenProgram`] owns an instruction sequence together with the state it
//! is executed against: an operand stack of field elements (front = top), a
//! sparse word-addressable memory, and a read-only advice tape. Builder
//! methods append instructions; the dispatchers apply one instruction's state
//! transition at a time. Every transition is specified by a spec-level step
//! function and the executable dispatchers are proved to match it exactly,
//! including the silent-degradation behaviour on stack underflow.

pub mod field;
pub mod instruction;
pub mod stack;
pub mod memory;
pub mod program;
pub mod io;
pub mod comparison;
pub mod conditional_manipulation;
pub mod execute;

pub use field::Felt;
pub use instruction::{Instruction, MidenProgramError};
pub use stack::Stack;
pub use memory::Memory;
pub use program::MidenProgram;
pub use comparison::execute_comparison;
pub use conditional_manipulation::execute_conditional;
pub use execute::{execute_io, execute_instruction};
