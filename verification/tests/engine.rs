//! End-to-end tests that drive the execution engine through whole programs.

use rum::rum::{Rum, RumError, StepOutcome};

/// Build a three-register instruction word: opcode in bits 28-31, `a` in
/// bits 6-8, `b` in bits 3-5, `c` in bits 0-2.
fn word(op: u32, a: u32, b: u32, c: u32) -> u32 {
    (op << 28) | (a << 6) | (b << 3) | c
}

/// Build an immediate-load word: opcode 13, register in bits 25-27, value in
/// bits 0-24.
fn lv(a: u32, value: u32) -> u32 {
    (13 << 28) | (a << 25) | value
}

/// Run a program to termination, feeding it `inputs` byte by byte, and
/// return the bytes it emitted plus how it stopped.
fn run(program: Vec<u32>, inputs: Vec<u8>) -> (Vec<u8>, Result<(), RumError>) {
    let mut machine = Rum::new(&program);
    let mut out: Vec<u8> = Vec::new();
    let mut inp = inputs.into_iter();
    loop {
        match machine.step() {
            StepOutcome::Proceed => {}
            StepOutcome::Emit(b) => out.push(b),
            StepOutcome::AwaitInput(ins) => {
                let byte = inp.next();
                machine.user_input(ins, byte);
            }
            StepOutcome::Halted => return (out, Ok(())),
            StepOutcome::Fault(e) => return (out, Err(e)),
        }
    }
}

const CMOV: u32 = 0;
const LOAD: u32 = 1;
const STORE: u32 = 2;
const ADD: u32 = 3;
const DIV: u32 = 5;
const NAND: u32 = 6;
const HALT: u32 = 7;
const MAP: u32 = 8;
const UNMAP: u32 = 9;
const OUT: u32 = 10;
const IN: u32 = 11;
const LOADPROG: u32 = 12;

#[test]
fn immediate_load_then_output_emits_h() {
    let program = vec![lv(0, 72), word(OUT, 0, 0, 0), word(HALT, 0, 0, 0)];
    let (out, end) = run(program, vec![]);
    assert_eq!(out, vec![72u8]);
    assert_eq!(end, Ok(()));
}

#[test]
fn addition_wraps_modulo_two_to_the_32() {
    // r1 := NAND(r0, r0) = 0xFFFF_FFFF (= 4294967295), r2 := 1,
    // r3 := r1 + r2 wraps to 0, which the output makes visible.
    let program = vec![
        word(NAND, 1, 0, 0),
        lv(2, 1),
        word(ADD, 3, 1, 2),
        word(OUT, 0, 0, 3),
        word(HALT, 0, 0, 0),
    ];
    let (out, end) = run(program, vec![]);
    assert_eq!(out, vec![0u8]);
    assert_eq!(end, Ok(()));
}

#[test]
fn division_by_zero_is_fatal_with_no_output() {
    let program = vec![lv(1, 5), word(DIV, 3, 1, 0), word(OUT, 0, 0, 3)];
    let (out, end) = run(program, vec![]);
    assert_eq!(out, Vec::<u8>::new());
    assert_eq!(end, Err(RumError::DivisionByZero));
}

#[test]
fn map_unmap_map_reuses_address_one_with_zero_words() {
    // Map 3 words (address 1 since segment 0 is the program), print the
    // address, unmap it, map 5 words (address 1 again), print the address,
    // then print all 5 words of the new segment: each must be 0.
    let mut program = vec![
        lv(1, 3),
        word(MAP, 0, 2, 1),   // r2 := address of 3-word segment
        word(OUT, 0, 0, 2),
        word(UNMAP, 0, 0, 2),
        lv(3, 5),
        word(MAP, 0, 2, 3),   // r2 := address of 5-word segment
        word(OUT, 0, 0, 2),
    ];
    for idx in 0..5 {
        program.push(lv(5, idx));
        program.push(word(LOAD, 4, 2, 5)); // r4 := segment[r2][r5]
        program.push(word(OUT, 0, 0, 4));
    }
    program.push(word(HALT, 0, 0, 0));
    let (out, end) = run(program, vec![]);
    assert_eq!(out, vec![1u8, 1, 0, 0, 0, 0, 0]);
    assert_eq!(end, Ok(()));
}

#[test]
fn load_program_with_zero_source_jumps_within_segment_zero() {
    // r1 := 6; load-program with register b = r0 = 0 must leave segment 0
    // untouched and set the instruction pointer to r1, skipping the filler
    // words; the instruction at index 6 then runs from the original program.
    let program = vec![
        lv(1, 6),
        word(LOADPROG, 0, 0, 1),
        lv(7, 1),
        lv(7, 1),
        lv(7, 1),
        lv(7, 1),
        word(OUT, 0, 0, 0), // index 6: emit r0 = 0
        word(HALT, 0, 0, 0),
    ];
    let (out, end) = run(program, vec![]);
    assert_eq!(out, vec![0u8]);
    assert_eq!(end, Ok(()));
}

#[test]
fn output_above_255_is_fatal_before_any_byte_is_emitted() {
    let program = vec![lv(1, 300), word(OUT, 0, 0, 1), word(HALT, 0, 0, 0)];
    let (out, end) = run(program, vec![]);
    assert_eq!(out, Vec::<u8>::new());
    assert_eq!(end, Err(RumError::OutputTooLarge));
}

#[test]
fn conditional_move_fires_only_on_nonzero_condition() {
    // r1 := 7; cmov r2 := r1 if r0 != 0 (it is 0, so nothing moves);
    // then r3 := 1 and cmov r2 := r1 if r3 != 0 (moves); emit r2.
    let program = vec![
        lv(1, 7),
        word(CMOV, 2, 1, 0),
        word(OUT, 0, 0, 2), // still 0
        lv(3, 1),
        word(CMOV, 2, 1, 3),
        word(OUT, 0, 0, 2), // now 7
        word(HALT, 0, 0, 0),
    ];
    let (out, end) = run(program, vec![]);
    assert_eq!(out, vec![0u8, 7]);
    assert_eq!(end, Ok(()));
}

#[test]
fn segment_store_then_load_round_trips_through_memory() {
    // Map a 2-word segment at r2, store 9 at its index 1, load it back and
    // emit it.
    let program = vec![
        lv(1, 2),
        word(MAP, 0, 2, 1),
        lv(3, 1),
        lv(4, 9),
        word(STORE, 2, 3, 4), // segment[r2][r3] := r4
        word(LOAD, 5, 2, 3),  // r5 := segment[r2][r3]
        word(OUT, 0, 0, 5),
        word(HALT, 0, 0, 0),
    ];
    let (out, end) = run(program, vec![]);
    assert_eq!(out, vec![9u8]);
    assert_eq!(end, Ok(()));
}

#[test]
fn load_program_replaces_segment_zero_with_a_copy() {
    // Copy a 2-word payload [OUT r0, HALT] out of the program image into a
    // fresh segment, then load-program that segment: the machine must run
    // the copy from instruction pointer 0.
    let out_word = word(OUT, 0, 0, 0);
    let halt_word = word(HALT, 0, 0, 0);
    let program = vec![
        lv(1, 2),
        word(MAP, 0, 2, 1),      // 1: r2 := address of a fresh 2-word segment
        lv(3, 12),
        word(LOAD, 4, 0, 3),     // 3: r4 := program word at index 12 (OUT)
        lv(5, 0),
        word(STORE, 2, 5, 4),    // 5: new segment[0] := OUT
        lv(3, 13),
        word(LOAD, 4, 0, 3),     // 7: r4 := program word at index 13 (HALT)
        lv(5, 1),
        word(STORE, 2, 5, 4),    // 9: new segment[1] := HALT
        word(LOADPROG, 0, 2, 0), // 10: segment 0 := copy of segment r2, ip := r0 = 0
        word(HALT, 0, 0, 0),     // 11: never reached
        out_word,                // 12: payload
        halt_word,               // 13: payload
    ];
    let (out, end) = run(program, vec![]);
    assert_eq!(out, vec![0u8]);
    assert_eq!(end, Ok(()));
}

#[test]
fn input_byte_lands_in_register_c() {
    let program = vec![word(IN, 0, 0, 2), word(OUT, 0, 0, 2), word(HALT, 0, 0, 0)];
    let (out, end) = run(program, vec![65]);
    assert_eq!(out, vec![65u8]);
    assert_eq!(end, Ok(()));
}

#[test]
fn input_end_of_stream_sets_all_ones_sentinel() {
    // With no byte available, r2 becomes 2^32 - 1; adding 1 wraps to 0,
    // which the output makes visible.
    let program = vec![
        word(IN, 0, 0, 2),
        lv(1, 1),
        word(ADD, 3, 2, 1),
        word(OUT, 0, 0, 3),
        word(HALT, 0, 0, 0),
    ];
    let (out, end) = run(program, vec![]);
    assert_eq!(out, vec![0u8]);
    assert_eq!(end, Ok(()));
}

#[test]
fn running_past_the_program_end_is_a_fetch_fault() {
    let program = vec![lv(0, 1)];
    let (out, end) = run(program, vec![]);
    assert_eq!(out, Vec::<u8>::new());
    assert_eq!(end, Err(RumError::FetchOutOfBounds));
}

#[test]
fn unknown_opcode_is_fatal() {
    let program = vec![word(14, 0, 0, 0)];
    let (_, end) = run(program, vec![]);
    assert_eq!(end, Err(RumError::UnknownOpcode));
    let program = vec![word(15, 0, 0, 0)];
    let (_, end) = run(program, vec![]);
    assert_eq!(end, Err(RumError::UnknownOpcode));
}

#[test]
fn load_from_out_of_range_index_is_fatal() {
    let program = vec![lv(3, 9), word(LOAD, 4, 0, 3)];
    let (_, end) = run(program, vec![]);
    assert_eq!(end, Err(RumError::LoadOutOfBounds));
}

#[test]
fn store_to_out_of_range_address_is_fatal() {
    let program = vec![lv(1, 5), word(STORE, 1, 0, 0)];
    let (_, end) = run(program, vec![]);
    assert_eq!(end, Err(RumError::StoreOutOfBounds));
}

#[test]
fn unmapping_a_never_mapped_address_is_fatal() {
    let program = vec![lv(1, 3), word(UNMAP, 0, 0, 1)];
    let (_, end) = run(program, vec![]);
    assert_eq!(end, Err(RumError::UnmapNotLive));
}

#[test]
fn unmapping_the_same_address_twice_is_fatal() {
    let program = vec![
        lv(1, 1),
        word(MAP, 0, 2, 1),
        word(UNMAP, 0, 0, 2),
        word(UNMAP, 0, 0, 2),
    ];
    let (_, end) = run(program, vec![]);
    assert_eq!(end, Err(RumError::UnmapNotLive));
}

#[test]
fn loading_a_program_from_a_dead_segment_is_fatal() {
    let program = vec![lv(1, 4), word(LOADPROG, 0, 1, 0)];
    let (_, end) = run(program, vec![]);
    assert_eq!(end, Err(RumError::ProgramNotLive));
}

#[test]
fn multiplication_wraps_modulo_two_to_the_32() {
    // r1 := 2^31 via doubling 1 thirty-one times, then r3 := r1 * 2 wraps
    // to 0.
    let mut program = vec![lv(1, 1)];
    for _ in 0..31 {
        program.push(word(ADD, 1, 1, 1));
    }
    program.push(lv(2, 2));
    program.push(word(4, 3, 1, 2)); // multiply
    program.push(word(OUT, 0, 0, 3));
    program.push(word(HALT, 0, 0, 0));
    let (out, end) = run(program, vec![]);
    assert_eq!(out, vec![0u8]);
    assert_eq!(end, Ok(()));
}

#[test]
fn division_truncates_toward_zero() {
    let program = vec![
        lv(1, 7),
        lv(2, 2),
        word(DIV, 3, 1, 2),
        word(OUT, 0, 0, 3),
        word(HALT, 0, 0, 0),
    ];
    let (out, end) = run(program, vec![]);
    assert_eq!(out, vec![3u8]);
    assert_eq!(end, Ok(()));
}
