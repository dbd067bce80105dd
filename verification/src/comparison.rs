//! Comparison opcodes: equality, ordering over canonical representatives,
//! and parity.

use vstd::prelude::*;
use crate::field::{felt_bool, felt_of, felt_one, felt_zero, bool_to_felt, Felt};
use crate::instruction::Instruction;
use crate::program::MidenProgram;

verus! {

/// The stack left behind by one comparison instruction.
///
/// Every popping opcode degrades silently when the stack is too short: the
/// pops that could be made are consumed and nothing is pushed. A
/// non-comparison instruction leaves the stack untouched.
pub open spec fn comparison_step(s: Seq<Felt>, op: Instruction) -> Seq<Felt> {
    match op {
        Instruction::Eq => if s.len() >= 2 {
            seq![felt_bool(s[1] == s[0])] + s.skip(2)
        } else {
            Seq::<Felt>::empty()
        },
        Instruction::Neq => if s.len() >= 2 {
            seq![felt_bool(s[1] != s[0])] + s.skip(2)
        } else {
            Seq::<Felt>::empty()
        },
        Instruction::EqImm(k) => if s.len() >= 1 {
            seq![felt_bool(s[0] == felt_of(k))] + s.skip(1)
        } else {
            Seq::<Felt>::empty()
        },
        Instruction::NeqImm(k) => if s.len() >= 1 {
            seq![felt_bool(s[0] != felt_of(k))] + s.skip(1)
        } else {
            Seq::<Felt>::empty()
        },
        Instruction::EqW => if s.len() >= 8 {
            seq![felt_bool(s[0] == s[4] && s[1] == s[5] && s[2] == s[6] && s[3] == s[7])] + s
        } else {
            s
        },
        Instruction::Lt => if s.len() >= 2 {
            seq![felt_bool(s[1].value < s[0].value)] + s.skip(2)
        } else {
            Seq::<Felt>::empty()
        },
        Instruction::Gt => if s.len() >= 2 {
            seq![felt_bool(s[1].value > s[0].value)] + s.skip(2)
        } else {
            Seq::<Felt>::empty()
        },
        Instruction::Lte => if s.len() >= 2 {
            seq![felt_bool(s[1].value <= s[0].value)] + s.skip(2)
        } else {
            Seq::<Felt>::empty()
        },
        Instruction::Gte => if s.len() >= 2 {
            seq![felt_bool(s[1].value >= s[0].value)] + s.skip(2)
        } else {
            Seq::<Felt>::empty()
        },
        Instruction::IsOdd => if s.len() >= 1 {
            seq![felt_bool(s[0].value % 2 == 1)] + s.skip(1)
        } else {
            Seq::<Felt>::empty()
        },
        _ => s,
    }
}

/// Applies one comparison instruction to the program's stack; any other
/// instruction leaves the program unchanged. Memory, advice tape and
/// instruction sequence are never touched.
pub fn execute_comparison(program: &mut MidenProgram, operand: &Instruction)
    ensures
        final(program).stack@ == comparison_step(old(program).stack@, *operand),
        final(program).memory == old(program).memory,
        final(program).advice_stack == old(program).advice_stack,
        final(program).instructions == old(program).instructions,
{
    match operand {
        Instruction::Eq => {
            let b = program.stack.pop_front();
            let a = program.stack.pop_front();
            if let (Some(b), Some(a)) = (b, a) {
                program.stack.push_front(bool_to_felt(a == b));
            }
            proof {
                lemma_pop_shapes(old(program).stack@);
            }
        },
        Instruction::Neq => {
            let b = program.stack.pop_front();
            let a = program.stack.pop_front();
            if let (Some(b), Some(a)) = (b, a) {
                program.stack.push_front(bool_to_felt(a != b));
            }
            proof {
                lemma_pop_shapes(old(program).stack@);
            }
        },
        Instruction::EqImm(k) => {
            if let Some(a) = program.stack.pop_front() {
                program.stack.push_front(bool_to_felt(a == Felt::from_u64(*k)));
            }
            proof {
                lemma_pop_shapes(old(program).stack@);
            }
        },
        Instruction::NeqImm(k) => {
            if let Some(a) = program.stack.pop_front() {
                program.stack.push_front(bool_to_felt(a != Felt::from_u64(*k)));
            }
            proof {
                lemma_pop_shapes(old(program).stack@);
            }
        },
        Instruction::EqW => {
            if let (
                Some(a),
                Some(b),
                Some(c),
                Some(d),
                Some(e),
                Some(f),
                Some(g),
                Some(h),
            ) = (
                program.stack.get(0),
                program.stack.get(1),
                program.stack.get(2),
                program.stack.get(3),
                program.stack.get(4),
                program.stack.get(5),
                program.stack.get(6),
                program.stack.get(7),
            ) {
                program.stack.push_front(bool_to_felt(a == e && b == f && c == g && d == h));
            }
        },
        Instruction::Lt => {
            let b = program.stack.pop_front();
            let a = program.stack.pop_front();
            if let (Some(b), Some(a)) = (b, a) {
                program.stack.push_front(bool_to_felt(a.as_int() < b.as_int()));
            }
            proof {
                lemma_pop_shapes(old(program).stack@);
            }
        },
        Instruction::Gt => {
            let b = program.stack.pop_front();
            let a = program.stack.pop_front();
            if let (Some(b), Some(a)) = (b, a) {
                program.stack.push_front(bool_to_felt(a.as_int() > b.as_int()));
            }
            proof {
                lemma_pop_shapes(old(program).stack@);
            }
        },
        Instruction::Lte => {
            let b = program.stack.pop_front();
            let a = program.stack.pop_front();
            if let (Some(b), Some(a)) = (b, a) {
                program.stack.push_front(bool_to_felt(a.as_int() <= b.as_int()));
            }
            proof {
                lemma_pop_shapes(old(program).stack@);
            }
        },
        Instruction::Gte => {
            let b = program.stack.pop_front();
            let a = program.stack.pop_front();
            if let (Some(b), Some(a)) = (b, a) {
                program.stack.push_front(bool_to_felt(a.as_int() >= b.as_int()));
            }
            proof {
                lemma_pop_shapes(old(program).stack@);
            }
        },
        Instruction::IsOdd => {
            if let Some(a) = program.stack.pop_front() {
                program.stack.push_front(bool_to_felt(a.as_int() % 2 == 1));
            }
            proof {
                lemma_pop_shapes(old(program).stack@);
            }
        },
        _ => {},
    }
}

/// For every stack holding at least two elements, `Eq` pushes one exactly
/// when the two popped elements are equal in the field and zero otherwise,
/// and `Neq` pushes the exact logical complement for the same pair.
pub proof fn lemma_eq_neq_complement(s: Seq<Felt>)
    requires
        s.len() >= 2,
    ensures
        comparison_step(s, Instruction::Eq) == seq![felt_bool(s[1] == s[0])] + s.skip(2),
        comparison_step(s, Instruction::Neq) == seq![felt_bool(s[1] != s[0])] + s.skip(2),
        comparison_step(s, Instruction::Eq)[0] == felt_one() <==> s[1] == s[0],
        comparison_step(s, Instruction::Eq)[0] == felt_one() <==> comparison_step(
            s,
            Instruction::Neq,
        )[0] == felt_zero(),
        comparison_step(s, Instruction::Eq)[0] == felt_zero() <==> comparison_step(
            s,
            Instruction::Neq,
        )[0] == felt_one(),
{
}

/// `EqImm(k)` pushes one exactly when the popped top is the field element
/// of `k`, and zero for every other top value.
pub proof fn lemma_eq_imm(s: Seq<Felt>, k: u64)
    requires
        s.len() >= 1,
    ensures
        comparison_step(s, Instruction::EqImm(k)) == seq![felt_bool(s[0] == felt_of(k))]
            + s.skip(1),
        s[0] == felt_of(k) ==> comparison_step(s, Instruction::EqImm(k))[0] == felt_one(),
        s[0] != felt_of(k) ==> comparison_step(s, Instruction::EqImm(k))[0] == felt_zero(),
{
}

/// `EqW` probes the top eight slots without consuming them: it pushes one
/// exactly when the two words agree position by position, and in both
/// outcomes the eight inspected slots sit unchanged below the result.
pub proof fn lemma_eq_word(s: Seq<Felt>)
    requires
        s.len() >= 8,
    ensures
        comparison_step(s, Instruction::EqW)[0] == felt_bool(
            s[0] == s[4] && s[1] == s[5] && s[2] == s[6] && s[3] == s[7],
        ),
        comparison_step(s, Instruction::EqW).skip(1) == s,
{
    assert(comparison_step(s, Instruction::EqW).skip(1) =~= s);
}

/// The four ordering opcodes decide exactly the corresponding comparison of
/// the popped elements' canonical representatives, and they are mutually
/// consistent for every pair: the strict tests exclude each other, each
/// non-strict test holds exactly when its strict test holds or the
/// representatives are equal, and both non-strict tests hold together
/// exactly on equal representatives.
pub proof fn lemma_ordering_consistent(s: Seq<Felt>)
    requires
        s.len() >= 2,
    ensures
        comparison_step(s, Instruction::Lt)[0] == felt_bool(s[1].value < s[0].value),
        comparison_step(s, Instruction::Gt)[0] == felt_bool(s[1].value > s[0].value),
        comparison_step(s, Instruction::Lte)[0] == felt_bool(s[1].value <= s[0].value),
        comparison_step(s, Instruction::Gte)[0] == felt_bool(s[1].value >= s[0].value),
        !(comparison_step(s, Instruction::Lt)[0] == felt_one() && comparison_step(
            s,
            Instruction::Gt,
        )[0] == felt_one()),
        comparison_step(s, Instruction::Lte)[0] == felt_one() <==> (comparison_step(
            s,
            Instruction::Lt,
        )[0] == felt_one() || s[1].value == s[0].value),
        comparison_step(s, Instruction::Gte)[0] == felt_one() <==> (comparison_step(
            s,
            Instruction::Gt,
        )[0] == felt_one() || s[1].value == s[0].value),
        comparison_step(s, Instruction::Lte)[0] == felt_one() && comparison_step(
            s,
            Instruction::Gte,
        )[0] == felt_one() <==> s[1].value == s[0].value,
{
}

/// Sequence algebra shared by the popping opcodes: two single-element pops
/// take the same view as dropping two at once, and a drained stack is the
/// empty sequence.
proof fn lemma_pop_shapes(s: Seq<Felt>)
    ensures
        s.len() >= 2 ==> s.skip(1).skip(1) == s.skip(2),
        s.len() == 0 ==> s == Seq::<Felt>::empty(),
        s.len() == 1 ==> s.skip(1) == Seq::<Felt>::empty(),
{
    if s.len() >= 2 {
        assert(s.skip(1).skip(1) =~= s.skip(2));
    }
    if s.len() == 0 {
        assert(s =~= Seq::<Felt>::empty());
    }
    if s.len() == 1 {
        assert(s.skip(1) =~= Seq::<Felt>::empty());
    }
}

} // verus!
