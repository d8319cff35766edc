//! Unit tests for the instruction decoder.

use rum::um_instruction::{
    get_a_bit, get_b_bit, get_c_bit, get_opcode, get_value, getu, Instruction, Opcode,
};

fn word(op: u32, a: u32, b: u32, c: u32) -> u32 {
    (op << 28) | (a << 6) | (b << 3) | c
}

#[test]
fn every_opcode_number_maps_to_its_tag() {
    let expected = [
        Opcode::CMov,
        Opcode::Load,
        Opcode::Store,
        Opcode::Add,
        Opcode::Mul,
        Opcode::Div,
        Opcode::Nand,
        Opcode::Halt,
        Opcode::MapSegment,
        Opcode::UnmapSegment,
        Opcode::Output,
        Opcode::Input,
        Opcode::LoadProgram,
        Opcode::LoadValue,
        Opcode::Unknown,
        Opcode::Unknown,
    ];
    for num in 0..16u32 {
        assert_eq!(get_opcode((num << 28) as u64), expected[num as usize]);
    }
}

#[test]
fn three_register_layout_decodes_a_b_c() {
    let w = word(3, 5, 6, 7);
    let ins = Instruction::new(w);
    assert_eq!(ins.opcode, Opcode::Add);
    assert_eq!(ins.a, 5);
    assert_eq!(ins.b, Some(6));
    assert_eq!(ins.c, Some(7));
    assert_eq!(ins.value, None);
}

#[test]
fn immediate_load_layout_decodes_a_and_value() {
    let w = (13u32 << 28) | (3 << 25) | 12345;
    let ins = Instruction::new(w);
    assert_eq!(ins.opcode, Opcode::LoadValue);
    assert_eq!(ins.a, 3);
    assert_eq!(ins.b, None);
    assert_eq!(ins.c, None);
    assert_eq!(ins.value, Some(12345));
}

#[test]
fn field_helpers_follow_the_opcode_layout() {
    let w = word(2, 1, 2, 3);
    let op = get_opcode(w as u64);
    assert_eq!(get_a_bit(w as u64, &op), 1);
    assert_eq!(get_b_bit(w as u64, &op), Some(2));
    assert_eq!(get_c_bit(w, &op), Some(3));
    assert_eq!(get_value(w, &op), None);

    let lv = (13u32 << 28) | (7 << 25) | 99;
    let op = get_opcode(lv as u64);
    assert_eq!(get_a_bit(lv as u64, &op), 7);
    assert_eq!(get_b_bit(lv as u64, &op), None);
    assert_eq!(get_c_bit(lv, &op), None);
    assert_eq!(get_value(lv, &op), Some(99));
}

#[test]
fn getu_reads_the_named_field() {
    assert_eq!(getu(0xFFFF_FFFF, 28, 4), 0xF);
    assert_eq!(getu(word(0, 0, 0, 5), 0, 3), 5);
    assert_eq!(getu(word(0, 0, 4, 0), 3, 3), 4);
}

#[test]
fn unrecognized_words_still_decode_structurally() {
    let w = word(15, 1, 2, 3);
    let ins = Instruction::new(w);
    assert_eq!(ins.opcode, Opcode::Unknown);
    assert_eq!(ins.a, 1);
    assert_eq!(ins.b, Some(2));
    assert_eq!(ins.c, Some(3));
    assert_eq!(ins.value, None);
}
