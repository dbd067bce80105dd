//! Builder methods: each appends one instruction to the program.

use vstd::prelude::*;
use crate::field::{felt_of, Felt};
use crate::instruction::{Instruction, MidenProgramError};
use crate::program::MidenProgram;

verus! {

/// The instruction that an advice-tape read request appends: a normal read
/// when the index is within bounds of the tape length, and an error-carrying
/// instruction otherwise.
pub open spec fn adv_push_instruction(n: usize, tape_len: usize) -> Instruction {
    if n > tape_len {
        Instruction::Error(MidenProgramError::AdviceStackReadOutOfBounds(n, tape_len))
    } else {
        Instruction::AdvPush(n)
    }
}

impl MidenProgram {
    /// Appends an instruction that pushes the field element of `value` onto
    /// the stack.
    pub fn push(&mut self, value: u64)
        ensures
            final(self).instructions@ == old(self).instructions@.push(
                Instruction::Push(felt_of(value)),
            ),
            final(self).stack == old(self).stack,
            final(self).memory == old(self).memory,
            final(self).advice_stack == old(self).advice_stack,
    {
        let v = Felt::from_u64(value);
        self.add_instruction(Instruction::Push(v));
    }

    /// Appends an instruction that pushes the advice tape's element at index
    /// `n`. When `n` exceeds the current tape length, the appended
    /// instruction is instead an error carrying `n` and that length: the
    /// validation failure becomes part of the program text.
    pub fn adv_push(&mut self, n: usize)
        ensures
            final(self).instructions@ == old(self).instructions@.push(
                adv_push_instruction(n, old(self).advice_stack@.len() as usize),
            ),
            final(self).stack == old(self).stack,
            final(self).memory == old(self).memory,
            final(self).advice_stack == old(self).advice_stack,
    {
        let op: Instruction;
        if n > self.advice_stack.len() {
            op = Instruction::Error(
                MidenProgramError::AdviceStackReadOutOfBounds(n, self.advice_stack.len()),
            );
        } else {
            op = Instruction::AdvPush(n);
        }
        self.add_instruction(op);
    }

    /// Appends an instruction that pops an address, pops a value, and stores
    /// the value at that address.
    pub fn mem_store(&mut self)
        ensures
            final(self).instructions@ == old(self).instructions@.push(Instruction::MemStore),
            final(self).stack == old(self).stack,
            final(self).memory == old(self).memory,
            final(self).advice_stack == old(self).advice_stack,
    {
        self.add_instruction(Instruction::MemStore);
    }

    /// Appends an instruction that pops a value and stores it at address `n`.
    pub fn mem_store_n(&mut self, n: u32)
        ensures
            final(self).instructions@ == old(self).instructions@.push(
                Instruction::MemStoreImm(n),
            ),
            final(self).stack == old(self).stack,
            final(self).memory == old(self).memory,
            final(self).advice_stack == old(self).advice_stack,
    {
        self.add_instruction(Instruction::MemStoreImm(n));
    }

    /// Appends an instruction that pops an address and the word on top of
    /// the stack and stores that word at the address.
    pub fn mem_store_w(&mut self)
        ensures
            final(self).instructions@ == old(self).instructions@.push(Instruction::MemStoreW),
            final(self).stack == old(self).stack,
            final(self).memory == old(self).memory,
            final(self).advice_stack == old(self).advice_stack,
    {
        self.add_instruction(Instruction::MemStoreW);
    }

    /// Appends an instruction that pops the word on top of the stack and
    /// stores it at address `n`.
    pub fn mem_store_w_n(&mut self, n: u32)
        ensures
            final(self).instructions@ == old(self).instructions@.push(
                Instruction::MemStoreWImm(n),
            ),
            final(self).stack == old(self).stack,
            final(self).memory == old(self).memory,
            final(self).advice_stack == old(self).advice_stack,
    {
        self.add_instruction(Instruction::MemStoreWImm(n));
    }

    /// Appends an instruction that pops an address and pushes the element
    /// stored there.
    pub fn mem_load(&mut self)
        ensures
            final(self).instructions@ == old(self).instructions@.push(Instruction::MemLoad),
            final(self).stack == old(self).stack,
            final(self).memory == old(self).memory,
            final(self).advice_stack == old(self).advice_stack,
    {
        self.add_instruction(Instruction::MemLoad);
    }

    /// Appends an instruction that pushes the element stored at address `n`.
    pub fn mem_load_n(&mut self, n: u32)
        ensures
            final(self).instructions@ == old(self).instructions@.push(
                Instruction::MemLoadImm(n),
            ),
            final(self).stack == old(self).stack,
            final(self).memory == old(self).memory,
            final(self).advice_stack == old(self).advice_stack,
    {
        self.add_instruction(Instruction::MemLoadImm(n));
    }

    /// Appends an instruction that pops an address and pushes the word
    /// stored there.
    pub fn mem_load_w(&mut self)
        ensures
            final(self).instructions@ == old(self).instructions@.push(Instruction::MemLoadW),
            final(self).stack == old(self).stack,
            final(self).memory == old(self).memory,
            final(self).advice_stack == old(self).advice_stack,
    {
        self.add_instruction(Instruction::MemLoadW);
    }

    /// Appends an instruction that pushes the word stored at address `n`.
    pub fn mem_load_w_n(&mut self, n: u32)
        ensures
            final(self).instructions@ == old(self).instructions@.push(
                Instruction::MemLoadWImm(n),
            ),
            final(self).stack == old(self).stack,
            final(self).memory == old(self).memory,
            final(self).advice_stack == old(self).advice_stack,
    {
        self.add_instruction(Instruction::MemLoadWImm(n));
    }
}

} // verus!
