//! The closed set of opcodes and the build-time error carried as data.

use vstd::prelude::*;
use crate::field::Felt;

verus! {

/// A validation failure detected while a program is being built, carried as
/// data in the instruction stream rather than raised as an exception.
#[derive(Clone, Copy, PartialEq, Eq, Structural, Debug)]
pub enum MidenProgramError {
    /// An advice-tape read was requested at an index greater than the tape
    /// length; carries the requested index and the tape length at the moment
    /// of the failed append.
    AdviceStackReadOutOfBounds(usize, usize),
}

/// One unit of program text: a tagged opcode with embedded immediate
/// operands where applicable.
#[derive(Clone, Copy, PartialEq, Eq, Structural, Debug)]
pub enum Instruction {
    /// Pop two elements and push one iff they are equal in the field.
    Eq,
    /// Pop one element and push one iff it equals the immediate's element.
    EqImm(u64),
    /// Pop two elements and push one iff they differ in the field.
    Neq,
    /// Pop one element and push one iff it differs from the immediate's element.
    NeqImm(u64),
    /// Probe the top eight slots without popping; push one iff the two words
    /// they form are equal position by position.
    EqW,
    /// Pop two elements and compare their canonical representatives strictly.
    Lt,
    /// Pop two elements and compare their canonical representatives strictly.
    Gt,
    /// Pop two elements and compare their canonical representatives non-strictly.
    Lte,
    /// Pop two elements and compare their canonical representatives non-strictly.
    Gte,
    /// Pop one element and push one iff its canonical representative is odd.
    IsOdd,
    /// Pop a condition; swap the two elements now on top when it is one.
    CSwap,
    /// Pop a condition; swap the two words now in the top eight slots when it
    /// is one.
    CSwapW,
    /// Pop a condition and two candidates; push the deeper candidate back
    /// when the condition is zero, the shallower one otherwise.
    CDrop,
    /// Pop a condition and two candidate words; push the deeper word back
    /// when the condition is zero, the shallower one otherwise.
    CDropW,
    /// Push a literal field element.
    Push(Felt),
    /// Push the advice tape's element at the carried index.
    AdvPush(usize),
    /// Pop an address, pop a value, and store the value at the address.
    MemStore,
    /// Pop a value and store it at the immediate address.
    MemStoreImm(u32),
    /// Pop an address and four elements; store them as the word at the address.
    MemStoreW,
    /// Pop four elements and store them as the word at the immediate address.
    MemStoreWImm(u32),
    /// Pop an address and push the element stored there.
    MemLoad,
    /// Push the element stored at the immediate address.
    MemLoadImm(u32),
    /// Pop an address and push the word stored there.
    MemLoadW,
    /// Push the word stored at the immediate address.
    MemLoadWImm(u32),
    /// A build-time validation failure surfaced as program text; dispatching
    /// it changes no state.
    Error(MidenProgramError),
}

} // verus!
