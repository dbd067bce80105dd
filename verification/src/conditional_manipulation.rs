//! Conditional stack manipulation: data-level selection between two
//! stack-resident alternatives, steered by a popped condition element.

use vstd::prelude::*;
use crate::field::{felt_one, felt_zero, Felt};
use crate::instruction::Instruction;
use crate::program::MidenProgram;

verus! {

/// The stack left behind by one conditional-manipulation instruction.
///
/// The condition is always popped first. A swap happens only when the
/// condition equals one; a drop keeps the deeper candidate when the
/// condition equals zero and the shallower one otherwise. When the stack is
/// too short, the pops that could be made are consumed and nothing further
/// happens.
pub open spec fn conditional_step(s: Seq<Felt>, op: Instruction) -> Seq<Felt> {
    match op {
        Instruction::CSwap => if s.len() == 0 {
            s
        } else {
            let rest = s.skip(1);
            if s[0] == felt_one() && rest.len() >= 2 {
                rest.update(0, rest[1]).update(1, rest[0])
            } else {
                rest
            }
        },
        Instruction::CSwapW => if s.len() == 0 {
            s
        } else {
            let rest = s.skip(1);
            if s[0] == felt_one() && rest.len() >= 8 {
                rest.update(0, rest[4]).update(4, rest[0]).update(1, rest[5]).update(
                    5,
                    rest[1],
                ).update(2, rest[6]).update(6, rest[2]).update(3, rest[7]).update(7, rest[3])
            } else {
                rest
            }
        },
        Instruction::CDrop => if s.len() >= 3 {
            seq![if s[0] == felt_zero() { s[2] } else { s[1] }] + s.skip(3)
        } else {
            Seq::<Felt>::empty()
        },
        Instruction::CDropW => if s.len() >= 9 {
            if s[0] == felt_zero() {
                s.skip(5)
            } else {
                s.subrange(1, 5) + s.skip(9)
            }
        } else {
            Seq::<Felt>::empty()
        },
        _ => s,
    }
}

/// Applies one conditional-manipulation instruction to the program's stack;
/// any other instruction leaves the program unchanged. Memory, advice tape
/// and instruction sequence are never touched.
pub fn execute_conditional(program: &mut MidenProgram, operand: &Instruction)
    ensures
        final(program).stack@ == conditional_step(old(program).stack@, *operand),
        final(program).memory == old(program).memory,
        final(program).advice_stack == old(program).advice_stack,
        final(program).instructions == old(program).instructions,
{
    match operand {
        Instruction::CSwap => {
            if let Some(c) = program.stack.pop_front() {
                if c == Felt::one() && program.stack.len() >= 2 {
                    program.stack.swap(0, 1);
                }
            }
        },
        Instruction::CSwapW => {
            if let Some(c) = program.stack.pop_front() {
                if c == Felt::one() && program.stack.len() >= 8 {
                    program.stack.swap(0, 4);
                    program.stack.swap(1, 5);
                    program.stack.swap(2, 6);
                    program.stack.swap(3, 7);
                }
            }
        },
        Instruction::CDrop => {
            let c = program.stack.pop_front();
            let b = program.stack.pop_front();
            let a = program.stack.pop_front();
            if let (Some(c), Some(b), Some(a)) = (c, b, a) {
                if c == Felt::zero() {
                    program.stack.push_front(a);
                } else {
                    program.stack.push_front(b);
                }
                proof {
                    assert(old(program).stack@.skip(1).skip(1).skip(1) =~= old(
                        program,
                    ).stack@.skip(3));
                }
            } else {
                proof {
                    assert(program.stack@ =~= Seq::<Felt>::empty());
                }
            }
        },
        Instruction::CDropW => {
            if program.stack.len() >= 9 {
                let c = program.stack.pop_front().unwrap();
                let b3 = program.stack.pop_front().unwrap();
                let b2 = program.stack.pop_front().unwrap();
                let b1 = program.stack.pop_front().unwrap();
                let b0 = program.stack.pop_front().unwrap();
                let a3 = program.stack.pop_front().unwrap();
                let a2 = program.stack.pop_front().unwrap();
                let a1 = program.stack.pop_front().unwrap();
                let a0 = program.stack.pop_front().unwrap();
                proof {
                    assert(program.stack@ =~= old(program).stack@.skip(9));
                }
                if c == Felt::zero() {
                    program.stack.push_front(a0);
                    program.stack.push_front(a1);
                    program.stack.push_front(a2);
                    program.stack.push_front(a3);
                    proof {
                        assert(program.stack@ =~= old(program).stack@.skip(5));
                    }
                } else {
                    program.stack.push_front(b0);
                    program.stack.push_front(b1);
                    program.stack.push_front(b2);
                    program.stack.push_front(b3);
                    proof {
                        assert(program.stack@ =~= old(program).stack@.subrange(1, 5) + old(
                            program,
                        ).stack@.skip(9));
                    }
                }
            } else {
                program.stack.clear();
            }
        },
        _ => {},
    }
}

/// With condition one, `CSwap` exchanges the two elements below the
/// condition; with any other condition it leaves them in place. Either way
/// the condition is consumed and the rest of the stack is untouched.
pub proof fn lemma_cswap(c: Felt, x: Felt, y: Felt, rest: Seq<Felt>)
    ensures
        c == felt_one() ==> conditional_step(seq![c, x, y] + rest, Instruction::CSwap) == seq![
            y,
            x,
        ] + rest,
        c != felt_one() ==> conditional_step(seq![c, x, y] + rest, Instruction::CSwap) == seq![
            x,
            y,
        ] + rest,
{
    let s = seq![c, x, y] + rest;
    assert(s.skip(1) =~= seq![x, y] + rest);
    if c == felt_one() {
        assert(s.skip(1).update(0, s.skip(1)[1]).update(1, s.skip(1)[0]) =~= seq![y, x] + rest);
    }
}

/// Of its two candidates, `CDrop` keeps exactly one: the deeper one when
/// the condition is zero, the shallower one otherwise; the condition and
/// the rejected candidate are discarded and the rest of the stack is
/// untouched.
pub proof fn lemma_cdrop(c: Felt, b: Felt, a: Felt, rest: Seq<Felt>)
    ensures
        c == felt_zero() ==> conditional_step(seq![c, b, a] + rest, Instruction::CDrop) == seq![a]
            + rest,
        c != felt_zero() ==> conditional_step(seq![c, b, a] + rest, Instruction::CDrop) == seq![b]
            + rest,
{
    let s = seq![c, b, a] + rest;
    assert(s.skip(3) =~= rest);
}

/// Of the two words below the condition, `CDropW` puts back exactly the
/// selected one with its four elements in their original top-to-bottom
/// order: the deeper word when the condition is zero, the shallower one
/// otherwise. In particular a word survives a store-then-select round trip
/// unchanged.
pub proof fn lemma_cdropw_round_trip(c: Felt, wb: Seq<Felt>, wa: Seq<Felt>, rest: Seq<Felt>)
    requires
        wb.len() == 4,
        wa.len() == 4,
    ensures
        c == felt_zero() ==> conditional_step(seq![c] + wb + wa + rest, Instruction::CDropW) == wa
            + rest,
        c != felt_zero() ==> conditional_step(seq![c] + wb + wa + rest, Instruction::CDropW) == wb
            + rest,
{
    let s = seq![c] + wb + wa + rest;
    assert(s.skip(5) =~= wa + rest);
    assert(s.subrange(1, 5) =~= wb);
    assert(s.skip(9) =~= rest);
}

} // verus!
