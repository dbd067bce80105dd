//! Push, advice and memory opcodes, the combined single-instruction
//! dispatcher, and the flat fold that executes a whole program.

use vstd::prelude::*;
use crate::comparison::{comparison_step, execute_comparison};
use crate::conditional_manipulation::{conditional_step, execute_conditional};
use crate::field::Felt;
use crate::instruction::Instruction;
use crate::memory::mem_read;
use crate::program::MidenProgram;

verus! {

/// An element popped from the stack is a usable address when its canonical
/// representative fits the 32-bit address space.
pub open spec fn addr_ok(a: Felt) -> bool {
    a.value < 0x1_0000_0000u64
}

/// The memory after a word is stored at `a`: the four elements occupy the
/// four consecutive addresses starting there.
pub open spec fn store_word(
    m: Map<u64, Felt>,
    a: u64,
    v0: Felt,
    v1: Felt,
    v2: Felt,
    v3: Felt,
) -> Map<u64, Felt> {
    m.insert(a, v0).insert((a + 1) as u64, v1).insert((a + 2) as u64, v2).insert(
        (a + 3) as u64,
        v3,
    )
}

/// The word read from the four consecutive addresses starting at `a`, with
/// the element at `a` first.
pub open spec fn load_word(m: Map<u64, Felt>, a: u64) -> Seq<Felt> {
    seq![
        mem_read(m, a),
        mem_read(m, (a + 1) as u64),
        mem_read(m, (a + 2) as u64),
        mem_read(m, (a + 3) as u64),
    ]
}

/// The stack and memory left behind by one push, advice or memory
/// instruction.
///
/// An implicit address is the popped top element's representative; when it
/// does not fit the 32-bit address space, or the stack is too short for the
/// required pops, the pops that could be made are consumed and nothing
/// further happens. A word store writes all four elements or none. Any
/// other instruction (an error-carrying one included) changes nothing.
pub open spec fn io_step(
    s: Seq<Felt>,
    m: Map<u64, Felt>,
    advice: Seq<Felt>,
    op: Instruction,
) -> (Seq<Felt>, Map<u64, Felt>) {
    match op {
        Instruction::Push(v) => (seq![v] + s, m),
        Instruction::AdvPush(n) => if (n as int) < advice.len() {
            (seq![advice[n as int]] + s, m)
        } else {
            (s, m)
        },
        Instruction::MemStore => if s.len() >= 2 {
            (s.skip(2), if addr_ok(s[0]) {
                m.insert(s[0].value, s[1])
            } else {
                m
            })
        } else {
            (Seq::<Felt>::empty(), m)
        },
        Instruction::MemStoreImm(n) => if s.len() >= 1 {
            (s.skip(1), m.insert(n as u64, s[0]))
        } else {
            (s, m)
        },
        Instruction::MemStoreW => if s.len() >= 5 {
            (s.skip(5), if addr_ok(s[0]) {
                store_word(m, s[0].value, s[1], s[2], s[3], s[4])
            } else {
                m
            })
        } else {
            (Seq::<Felt>::empty(), m)
        },
        Instruction::MemStoreWImm(n) => if s.len() >= 4 {
            (s.skip(4), store_word(m, n as u64, s[0], s[1], s[2], s[3]))
        } else {
            (Seq::<Felt>::empty(), m)
        },
        Instruction::MemLoad => if s.len() >= 1 {
            (if addr_ok(s[0]) {
                seq![mem_read(m, s[0].value)] + s.skip(1)
            } else {
                s.skip(1)
            }, m)
        } else {
            (s, m)
        },
        Instruction::MemLoadImm(n) => (seq![mem_read(m, n as u64)] + s, m),
        Instruction::MemLoadW => if s.len() >= 1 {
            (if addr_ok(s[0]) {
                load_word(m, s[0].value) + s.skip(1)
            } else {
                s.skip(1)
            }, m)
        } else {
            (s, m)
        },
        Instruction::MemLoadWImm(n) => (load_word(m, n as u64) + s, m),
        _ => (s, m),
    }
}

/// Applies one push, advice or memory instruction to the program's stack and
/// memory; any other instruction leaves the program unchanged. The advice
/// tape and the instruction sequence are never touched.
pub fn execute_io(program: &mut MidenProgram, operand: &Instruction)
    ensures
        final(program).stack@ == io_step(
            old(program).stack@,
            old(program).memory@,
            old(program).advice_stack@,
            *operand,
        ).0,
        final(program).memory@ == io_step(
            old(program).stack@,
            old(program).memory@,
            old(program).advice_stack@,
            *operand,
        ).1,
        final(program).advice_stack == old(program).advice_stack,
        final(program).instructions == old(program).instructions,
{
    match operand {
        Instruction::Push(v) => {
            program.stack.push_front(*v);
        },
        Instruction::AdvPush(n) => {
            if *n < program.advice_stack.len() {
                let v = program.advice_stack[*n];
                program.stack.push_front(v);
            }
        },
        Instruction::MemStore => {
            let addr = program.stack.pop_front();
            let value = program.stack.pop_front();
            if let (Some(addr), Some(value)) = (addr, value) {
                if addr.as_int() < 0x1_0000_0000 {
                    program.memory.store(addr.as_int(), value);
                }
                proof {
                    assert(program.stack@ =~= old(program).stack@.skip(2));
                }
            } else {
                proof {
                    assert(program.stack@ =~= Seq::<Felt>::empty());
                }
            }
        },
        Instruction::MemStoreImm(n) => {
            if let Some(value) = program.stack.pop_front() {
                program.memory.store(*n as u64, value);
            }
        },
        Instruction::MemStoreW => {
            if program.stack.len() >= 5 {
                let addr = program.stack.pop_front().unwrap();
                let v0 = program.stack.pop_front().unwrap();
                let v1 = program.stack.pop_front().unwrap();
                let v2 = program.stack.pop_front().unwrap();
                let v3 = program.stack.pop_front().unwrap();
                proof {
                    assert(program.stack@ =~= old(program).stack@.skip(5));
                }
                if addr.as_int() < 0x1_0000_0000 {
                    let a = addr.as_int();
                    program.memory.store(a, v0);
                    program.memory.store(a + 1, v1);
                    program.memory.store(a + 2, v2);
                    program.memory.store(a + 3, v3);
                }
            } else {
                program.stack.clear();
            }
        },
        Instruction::MemStoreWImm(n) => {
            if program.stack.len() >= 4 {
                let v0 = program.stack.pop_front().unwrap();
                let v1 = program.stack.pop_front().unwrap();
                let v2 = program.stack.pop_front().unwrap();
                let v3 = program.stack.pop_front().unwrap();
                proof {
                    assert(program.stack@ =~= old(program).stack@.skip(4));
                }
                let a = *n as u64;
                program.memory.store(a, v0);
                program.memory.store(a + 1, v1);
                program.memory.store(a + 2, v2);
                program.memory.store(a + 3, v3);
            } else {
                program.stack.clear();
            }
        },
        Instruction::MemLoad => {
            if let Some(addr) = program.stack.pop_front() {
                if addr.as_int() < 0x1_0000_0000 {
                    let v = program.memory.load(addr.as_int());
                    program.stack.push_front(v);
                }
            }
        },
        Instruction::MemLoadImm(n) => {
            let v = program.memory.load(*n as u64);
            program.stack.push_front(v);
        },
        Instruction::MemLoadW => {
            if let Some(addr) = program.stack.pop_front() {
                if addr.as_int() < 0x1_0000_0000 {
                    let a = addr.as_int();
                    let v3 = program.memory.load(a + 3);
                    let v2 = program.memory.load(a + 2);
                    let v1 = program.memory.load(a + 1);
                    let v0 = program.memory.load(a);
                    program.stack.push_front(v3);
                    program.stack.push_front(v2);
                    program.stack.push_front(v1);
                    program.stack.push_front(v0);
                    proof {
                        assert(program.stack@ =~= load_word(
                            old(program).memory@,
                            addr.value,
                        ) + old(program).stack@.skip(1));
                    }
                }
            }
        },
        Instruction::MemLoadWImm(n) => {
            let a = *n as u64;
            let v3 = program.memory.load(a + 3);
            let v2 = program.memory.load(a + 2);
            let v1 = program.memory.load(a + 1);
            let v0 = program.memory.load(a);
            program.stack.push_front(v3);
            program.stack.push_front(v2);
            program.stack.push_front(v1);
            program.stack.push_front(v0);
            proof {
                assert(program.stack@ =~= load_word(old(program).memory@, a) + old(
                    program,
                ).stack@);
            }
        },
        _ => {},
    }
}

/// The stack and memory left behind by one instruction of any family. The
/// advice tape never changes and no instruction alters the instruction
/// sequence.
pub open spec fn program_step(
    s: Seq<Felt>,
    m: Map<u64, Felt>,
    advice: Seq<Felt>,
    op: Instruction,
) -> (Seq<Felt>, Map<u64, Felt>) {
    match op {
        Instruction::Eq
        | Instruction::EqImm(_)
        | Instruction::Neq
        | Instruction::NeqImm(_)
        | Instruction::EqW
        | Instruction::Lt
        | Instruction::Gt
        | Instruction::Lte
        | Instruction::Gte
        | Instruction::IsOdd => (comparison_step(s, op), m),
        Instruction::CSwap
        | Instruction::CSwapW
        | Instruction::CDrop
        | Instruction::CDropW => (conditional_step(s, op), m),
        _ => io_step(s, m, advice, op),
    }
}

/// Dispatches one instruction to its family's executor.
pub fn execute_instruction(program: &mut MidenProgram, operand: &Instruction)
    ensures
        final(program).stack@ == program_step(
            old(program).stack@,
            old(program).memory@,
            old(program).advice_stack@,
            *operand,
        ).0,
        final(program).memory@ == program_step(
            old(program).stack@,
            old(program).memory@,
            old(program).advice_stack@,
            *operand,
        ).1,
        final(program).advice_stack == old(program).advice_stack,
        final(program).instructions == old(program).instructions,
{
    match operand {
        Instruction::Eq
        | Instruction::EqImm(_)
        | Instruction::Neq
        | Instruction::NeqImm(_)
        | Instruction::EqW
        | Instruction::Lt
        | Instruction::Gt
        | Instruction::Lte
        | Instruction::Gte
        | Instruction::IsOdd => {
            execute_comparison(program, operand);
        },
        Instruction::CSwap
        | Instruction::CSwapW
        | Instruction::CDrop
        | Instruction::CDropW => {
            execute_conditional(program, operand);
        },
        _ => {
            execute_io(program, operand);
        },
    }
}

/// The state reached by dispatching a sequence of instructions in order,
/// starting from the given stack and memory: a flat fold of `program_step`.
pub open spec fn run_steps(
    s: Seq<Felt>,
    m: Map<u64, Felt>,
    advice: Seq<Felt>,
    ops: Seq<Instruction>,
) -> (Seq<Felt>, Map<u64, Felt>)
    decreases ops.len(),
{
    if ops.len() == 0 {
        (s, m)
    } else {
        let next = program_step(s, m, advice, ops[0]);
        run_steps(next.0, next.1, advice, ops.skip(1))
    }
}

impl MidenProgram {
    /// Dispatches every instruction of the program, in order, against its
    /// own stack, memory and advice tape.
    pub fn execute(&mut self)
        ensures
            final(self).stack@ == run_steps(
                old(self).stack@,
                old(self).memory@,
                old(self).advice_stack@,
                old(self).instructions@,
            ).0,
            final(self).memory@ == run_steps(
                old(self).stack@,
                old(self).memory@,
                old(self).advice_stack@,
                old(self).instructions@,
            ).1,
            final(self).advice_stack == old(self).advice_stack,
            final(self).instructions == old(self).instructions,
    {
        let ghost orig_stack = self.stack@;
        let ghost orig_memory = self.memory@;
        let ghost advice = self.advice_stack@;
        let ghost ops = self.instructions@;
        let n = self.instructions.len();
        let mut i: usize = 0;
        proof {
            assert(ops.skip(0) =~= ops);
        }
        while i < n
            invariant
                i <= n,
                self.instructions@ == ops,
                self.advice_stack@ == advice,
                n == ops.len(),
                self.advice_stack == old(self).advice_stack,
                self.instructions == old(self).instructions,
                run_steps(self.stack@, self.memory@, advice, ops.skip(i as int)) == run_steps(
                    orig_stack,
                    orig_memory,
                    advice,
                    ops,
                ),
            decreases n - i,
        {
            let op = self.instructions[i];
            proof {
                assert(ops.skip(i as int).len() > 0);
                assert(ops.skip(i as int)[0] == ops[i as int]);
                assert(ops.skip(i as int).skip(1) =~= ops.skip(i as int + 1));
            }
            execute_instruction(self, &op);
            i = i + 1;
        }
        proof {
            assert(ops.skip(n as int) =~= Seq::<Instruction>::empty());
        }
    }
}

/// Storing an element at an immediate address and then loading from the
/// same address pushes back exactly the stored element, restoring the
/// stack the store consumed; the memory keeps the stored element.
pub proof fn lemma_mem_round_trip(
    s: Seq<Felt>,
    m: Map<u64, Felt>,
    advice: Seq<Felt>,
    addr: u32,
    v: Felt,
)
    ensures
        ({
            let stored = io_step(seq![v] + s, m, advice, Instruction::MemStoreImm(addr));
            let loaded = io_step(stored.0, stored.1, advice, Instruction::MemLoadImm(addr));
            loaded.0 == seq![v] + s && loaded.1 == stored.1 && mem_read(stored.1, addr as u64)
                == v
        }),
{
    assert((seq![v] + s).skip(1) =~= s);
}

/// Storing a word at an immediate address and then loading from the same
/// address restores the four stored elements in their original
/// top-to-bottom order, and the memory holds them at the four consecutive
/// addresses.
pub proof fn lemma_mem_word_round_trip(
    s: Seq<Felt>,
    m: Map<u64, Felt>,
    advice: Seq<Felt>,
    addr: u32,
    v0: Felt,
    v1: Felt,
    v2: Felt,
    v3: Felt,
)
    ensures
        ({
            let stored = io_step(seq![v0, v1, v2, v3] + s, m, advice, Instruction::MemStoreWImm(
                addr,
            ));
            let loaded = io_step(stored.0, stored.1, advice, Instruction::MemLoadWImm(addr));
            loaded.0 == seq![v0, v1, v2, v3] + s && loaded.1 == stored.1
        }),
{
    let w = seq![v0, v1, v2, v3];
    let stored = io_step(w + s, m, advice, Instruction::MemStoreWImm(addr));
    assert((w + s).skip(4) =~= s);
    assert(load_word(stored.1, addr as u64) =~= w);
    assert(load_word(stored.1, addr as u64) + stored.0 =~= w + s);
}

/// A requested advice read lands in the program text as an error
/// instruction carrying the index and the tape length exactly when the
/// index exceeds that length; a read recorded at an index within the tape
/// dispatches to a push of the tape's element at that index.
pub proof fn lemma_adv_push(
    s: Seq<Felt>,
    m: Map<u64, Felt>,
    advice: Seq<Felt>,
    n: usize,
    tape_len: usize,
)
    ensures
        crate::io::adv_push_instruction(n, tape_len) == Instruction::Error(
            crate::instruction::MidenProgramError::AdviceStackReadOutOfBounds(n, tape_len),
        ) <==> n > tape_len,
        n <= tape_len ==> crate::io::adv_push_instruction(n, tape_len) == Instruction::AdvPush(n),
        (n as int) < advice.len() ==> io_step(s, m, advice, Instruction::AdvPush(n)) == (
            seq![advice[n as int]] + s,
            m,
        ),
        (n as int) >= advice.len() ==> io_step(s, m, advice, Instruction::AdvPush(n)) == (s, m),
{
}

} // verus!
