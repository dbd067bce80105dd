use miden_program::{
    execute_comparison, execute_conditional, execute_instruction, Felt, Instruction,
    MidenProgram, MidenProgramError,
};

fn felt(v: u64) -> Felt {
    Felt::from_u64(v)
}

fn stack_of(program: &MidenProgram) -> Vec<u64> {
    let mut out: Vec<u64> = Vec::new();
    let mut i: usize = 0;
    while i < program.stack.len() {
        out.push(program.stack.get(i).unwrap().as_int());
        i += 1;
    }
    out
}

/// Pushes the given values so that the first listed value ends on top.
fn prime_stack(program: &mut MidenProgram, top_to_bottom: &[u64]) {
    for v in top_to_bottom.iter().rev() {
        program.stack.push_front(felt(*v));
    }
}

#[test]
fn eq_pushes_one_iff_equal() {
    let mut p = MidenProgram::new();
    prime_stack(&mut p, &[7, 7]);
    execute_comparison(&mut p, &Instruction::Eq);
    assert_eq!(stack_of(&p), vec![1]);

    let mut q = MidenProgram::new();
    prime_stack(&mut q, &[5, 7]);
    execute_comparison(&mut q, &Instruction::Eq);
    assert_eq!(stack_of(&q), vec![0]);
}

#[test]
fn neq_is_exact_complement_of_eq() {
    for (b, a) in [(7u64, 7u64), (5, 7), (0, 1)] {
        let mut p = MidenProgram::new();
        prime_stack(&mut p, &[b, a]);
        execute_comparison(&mut p, &Instruction::Eq);
        let eq_top = p.stack.get(0).unwrap().as_int();

        let mut q = MidenProgram::new();
        prime_stack(&mut q, &[b, a]);
        execute_comparison(&mut q, &Instruction::Neq);
        let neq_top = q.stack.get(0).unwrap().as_int();

        assert_eq!(eq_top + neq_top, 1);
        assert_eq!(eq_top == 1, a == b);
    }
}

#[test]
fn eq_imm_matches_only_the_immediate() {
    let mut p = MidenProgram::new();
    prime_stack(&mut p, &[9]);
    execute_comparison(&mut p, &Instruction::EqImm(9));
    assert_eq!(stack_of(&p), vec![1]);

    let mut q = MidenProgram::new();
    prime_stack(&mut q, &[8]);
    execute_comparison(&mut q, &Instruction::EqImm(9));
    assert_eq!(stack_of(&q), vec![0]);
}

#[test]
fn eq_imm_reduces_its_immediate_into_the_field() {
    // The immediate is a full u64 and must be reduced modulo the prime:
    // field(MODULUS) is zero, so a zero on top compares equal.
    let mut p = MidenProgram::new();
    prime_stack(&mut p, &[0]);
    execute_comparison(&mut p, &Instruction::EqImm(miden_program::field::MODULUS));
    assert_eq!(stack_of(&p), vec![1]);
}

#[test]
fn eq_w_probes_the_top_eight_slots_without_popping() {
    let mut p = MidenProgram::new();
    prime_stack(&mut p, &[1, 2, 3, 4, 1, 2, 3, 4]);
    execute_comparison(&mut p, &Instruction::EqW);
    assert_eq!(stack_of(&p), vec![1, 1, 2, 3, 4, 1, 2, 3, 4]);

    let mut q = MidenProgram::new();
    prime_stack(&mut q, &[1, 2, 3, 4, 1, 2, 9, 4]);
    execute_comparison(&mut q, &Instruction::EqW);
    assert_eq!(stack_of(&q), vec![0, 1, 2, 3, 4, 1, 2, 9, 4]);
}

#[test]
fn ordering_follows_canonical_representatives() {
    // Stack holds [b, a] with b on top; the opcodes compare a against b.
    let cases = [
        (5u64, 3u64, [1u64, 0, 1, 0]),  // a < b
        (4, 4, [0, 0, 1, 1]),           // a == b
        (2, 7, [0, 1, 0, 1]),           // a > b
    ];
    for (b, a, expected) in cases {
        let ops = [Instruction::Lt, Instruction::Gt, Instruction::Lte, Instruction::Gte];
        for (op, want) in ops.iter().zip(expected.iter()) {
            let mut p = MidenProgram::new();
            prime_stack(&mut p, &[b, a]);
            execute_comparison(&mut p, op);
            assert_eq!(stack_of(&p), vec![*want], "a={a} b={b} op={op:?}");
        }
    }
}

#[test]
fn is_odd_of_representatives() {
    for (rep, want) in [(7u64, 1u64), (8, 0), (0, 0)] {
        let mut p = MidenProgram::new();
        prime_stack(&mut p, &[rep]);
        execute_comparison(&mut p, &Instruction::IsOdd);
        assert_eq!(stack_of(&p), vec![want]);
    }
}

#[test]
fn cswap_swaps_only_on_condition_one() {
    let mut p = MidenProgram::new();
    prime_stack(&mut p, &[1, 10, 20, 30]);
    execute_conditional(&mut p, &Instruction::CSwap);
    assert_eq!(stack_of(&p), vec![20, 10, 30]);

    let mut q = MidenProgram::new();
    prime_stack(&mut q, &[0, 10, 20, 30]);
    execute_conditional(&mut q, &Instruction::CSwap);
    assert_eq!(stack_of(&q), vec![10, 20, 30]);
}

#[test]
fn cswapw_swaps_words_on_condition_one() {
    let mut p = MidenProgram::new();
    prime_stack(&mut p, &[1, 11, 12, 13, 14, 21, 22, 23, 24, 99]);
    execute_conditional(&mut p, &Instruction::CSwapW);
    assert_eq!(stack_of(&p), vec![21, 22, 23, 24, 11, 12, 13, 14, 99]);

    let mut q = MidenProgram::new();
    prime_stack(&mut q, &[0, 11, 12, 13, 14, 21, 22, 23, 24, 99]);
    execute_conditional(&mut q, &Instruction::CSwapW);
    assert_eq!(stack_of(&q), vec![11, 12, 13, 14, 21, 22, 23, 24, 99]);
}

#[test]
fn cdrop_keeps_the_selected_candidate() {
    let mut p = MidenProgram::new();
    prime_stack(&mut p, &[0, 50, 60, 70]);
    execute_conditional(&mut p, &Instruction::CDrop);
    assert_eq!(stack_of(&p), vec![60, 70]);

    let mut q = MidenProgram::new();
    prime_stack(&mut q, &[1, 50, 60, 70]);
    execute_conditional(&mut q, &Instruction::CDrop);
    assert_eq!(stack_of(&q), vec![50, 70]);
}

#[test]
fn cdropw_round_trips_the_selected_word() {
    // Word A = [21, 22, 23, 24] sits deeper, word B = [11, 12, 13, 14] above
    // it; condition zero selects A and must reproduce it in original order.
    let mut p = MidenProgram::new();
    prime_stack(&mut p, &[0, 11, 12, 13, 14, 21, 22, 23, 24, 99]);
    execute_conditional(&mut p, &Instruction::CDropW);
    assert_eq!(stack_of(&p), vec![21, 22, 23, 24, 99]);

    let mut q = MidenProgram::new();
    prime_stack(&mut q, &[1, 11, 12, 13, 14, 21, 22, 23, 24, 99]);
    execute_conditional(&mut q, &Instruction::CDropW);
    assert_eq!(stack_of(&q), vec![11, 12, 13, 14, 99]);
}

#[test]
fn mem_round_trip_single_element() {
    let mut p = MidenProgram::new();
    p.push(42);
    p.mem_store_n(5);
    p.mem_load_n(5);
    p.execute();
    assert_eq!(stack_of(&p), vec![42]);
    assert_eq!(p.memory.load(5).as_int(), 42);
}

#[test]
fn mem_round_trip_word() {
    let mut p = MidenProgram::new();
    p.push(1);
    p.push(2);
    p.push(3);
    p.push(4);
    p.mem_store_w_n(10);
    p.mem_load_w_n(10);
    p.execute();
    assert_eq!(stack_of(&p), vec![4, 3, 2, 1]);
    assert_eq!(p.memory.load(10).as_int(), 4);
    assert_eq!(p.memory.load(11).as_int(), 3);
    assert_eq!(p.memory.load(12).as_int(), 2);
    assert_eq!(p.memory.load(13).as_int(), 1);
}

#[test]
fn mem_store_and_load_with_implicit_address() {
    let mut p = MidenProgram::new();
    p.push(99); // value
    p.push(7); // address, pushed last so it is popped first
    p.mem_store();
    p.push(7);
    p.mem_load();
    p.execute();
    assert_eq!(stack_of(&p), vec![99]);
    assert_eq!(p.memory.load(7).as_int(), 99);
}

#[test]
fn mem_load_of_unwritten_address_is_zero() {
    let mut p = MidenProgram::new();
    p.mem_load_n(1234);
    p.execute();
    assert_eq!(stack_of(&p), vec![0]);
}

#[test]
fn adv_push_out_of_bounds_becomes_an_error_instruction() {
    let mut p = MidenProgram::with_advice(vec![felt(10), felt(20)]);
    p.adv_push(5);
    assert_eq!(
        p.instructions[0],
        Instruction::Error(MidenProgramError::AdviceStackReadOutOfBounds(5, 2))
    );
}

#[test]
fn adv_push_within_bounds_pushes_the_tape_element() {
    let mut p = MidenProgram::with_advice(vec![felt(10), felt(20)]);
    p.adv_push(1);
    assert_eq!(p.instructions[0], Instruction::AdvPush(1));
    p.execute();
    assert_eq!(stack_of(&p), vec![20]);
}

#[test]
fn adv_push_at_tape_length_is_recorded_but_inert() {
    // The bounds check only rejects indices strictly beyond the length, so
    // an index equal to the length is recorded as a normal read; there is no
    // element at it, and dispatching it changes nothing.
    let mut p = MidenProgram::with_advice(vec![felt(10), felt(20)]);
    p.adv_push(2);
    assert_eq!(p.instructions[0], Instruction::AdvPush(2));
    p.execute();
    assert_eq!(stack_of(&p), Vec::<u64>::new());
}

#[test]
fn eq_on_empty_stack_is_a_silent_no_op() {
    let mut p = MidenProgram::new();
    execute_comparison(&mut p, &Instruction::Eq);
    assert_eq!(p.stack.len(), 0);
}

#[test]
fn eq_on_one_element_consumes_it_and_pushes_nothing() {
    let mut p = MidenProgram::new();
    prime_stack(&mut p, &[7]);
    execute_comparison(&mut p, &Instruction::Eq);
    assert_eq!(p.stack.len(), 0);
}

#[test]
fn cdropw_underflow_drains_without_pushing() {
    let mut p = MidenProgram::new();
    prime_stack(&mut p, &[1, 11, 12]);
    execute_conditional(&mut p, &Instruction::CDropW);
    assert_eq!(p.stack.len(), 0);
}

#[test]
fn error_instruction_is_inert_at_dispatch() {
    let mut p = MidenProgram::new();
    prime_stack(&mut p, &[3]);
    let err = Instruction::Error(MidenProgramError::AdviceStackReadOutOfBounds(4, 0));
    execute_instruction(&mut p, &err);
    assert_eq!(stack_of(&p), vec![3]);
}

#[test]
fn builders_append_the_expected_instructions() {
    let mut p = MidenProgram::new();
    p.push(3);
    p.mem_store();
    p.mem_store_n(1);
    p.mem_store_w();
    p.mem_store_w_n(2);
    p.mem_load();
    p.mem_load_n(3);
    p.mem_load_w();
    p.mem_load_w_n(4);
    assert_eq!(p.instructions[0], Instruction::Push(felt(3)));
    assert_eq!(p.instructions[1], Instruction::MemStore);
    assert_eq!(p.instructions[2], Instruction::MemStoreImm(1));
    assert_eq!(p.instructions[3], Instruction::MemStoreW);
    assert_eq!(p.instructions[4], Instruction::MemStoreWImm(2));
    assert_eq!(p.instructions[5], Instruction::MemLoad);
    assert_eq!(p.instructions[6], Instruction::MemLoadImm(3));
    assert_eq!(p.instructions[7], Instruction::MemLoadW);
    assert_eq!(p.instructions[8], Instruction::MemLoadWImm(4));
}
