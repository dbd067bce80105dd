//! The program aggregate: instruction sequence plus the state it runs over.

use vstd::prelude::*;
use crate::field::Felt;
use crate::instruction::Instruction;
use crate::memory::Memory;
use crate::stack::Stack;

verus! {

/// A program under construction and execution. It owns the instruction
/// sequence, the operand stack, the memory, and the read-only advice tape.
pub struct MidenProgram {
    /// The instruction sequence, in append order.
    pub instructions: Vec<Instruction>,
    /// The operand stack; front = top.
    pub stack: Stack,
    /// The addressable store.
    pub memory: Memory,
    /// The advice tape: auxiliary input supplied before execution and only
    /// read afterwards.
    pub advice_stack: Vec<Felt>,
}

impl MidenProgram {
    /// An empty program with an empty advice tape.
    pub fn new() -> (r: MidenProgram)
        ensures
            r.instructions@ == Seq::<Instruction>::empty(),
            r.stack@ == Seq::<Felt>::empty(),
            r.memory@ == Map::<u64, Felt>::empty(),
            r.advice_stack@ == Seq::<Felt>::empty(),
    {
        MidenProgram {
            instructions: Vec::new(),
            stack: Stack::new(),
            memory: Memory::new(),
            advice_stack: Vec::new(),
        }
    }

    /// An empty program whose advice tape holds the given elements.
    pub fn with_advice(advice: Vec<Felt>) -> (r: MidenProgram)
        ensures
            r.instructions@ == Seq::<Instruction>::empty(),
            r.stack@ == Seq::<Felt>::empty(),
            r.memory@ == Map::<u64, Felt>::empty(),
            r.advice_stack@ == advice@,
    {
        MidenProgram {
            instructions: Vec::new(),
            stack: Stack::new(),
            memory: Memory::new(),
            advice_stack: advice,
        }
    }

    /// Appends one instruction; no other part of the program changes.
    pub fn add_instruction(&mut self, instruction: Instruction)
        ensures
            final(self).instructions@ == old(self).instructions@.push(instruction),
            final(self).stack == old(self).stack,
            final(self).memory == old(self).memory,
            final(self).advice_stack == old(self).advice_stack,
    {
        self.instructions.push(instruction);
    }
}

} // verus!
