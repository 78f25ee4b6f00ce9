use psx_core::instruction::Instruction;

#[test]
fn decoder_extracts_every_field() {
    // opcode 0b001101 (ORI), s = 0b10101, t = 0b01010, imm = 0x8421
    let w = Instruction((0b001101 << 26) | (0b10101 << 21) | (0b01010 << 16) | 0x8421);
    assert_eq!(w.opcode(), 0b001101);
    assert_eq!(w.s(), 0b10101);
    assert_eq!(w.t(), 0b01010);
    assert_eq!(w.immediate(), 0x8421);
    assert_eq!(w.immediate_sign_extended(), 0xFFFF8421);
}

#[test]
fn decoder_extracts_r_type_fields() {
    // SPECIAL, funct 0b100001 (ADDU), s = 1, t = 2, d = 3, shamt = 7
    let w = Instruction((1 << 21) | (2 << 16) | (3 << 11) | (7 << 6) | 0b100001);
    assert_eq!(w.opcode(), 0);
    assert_eq!(w.secondary_opcode(), 0b100001);
    assert_eq!(w.s(), 1);
    assert_eq!(w.t(), 2);
    assert_eq!(w.d(), 3);
    assert_eq!(w.immediate_shift(), 7);
}

#[test]
fn decoder_sign_extension_is_positive_for_small_immediates() {
    let w = Instruction(0x7FFF);
    assert_eq!(w.immediate(), 0x7FFF);
    assert_eq!(w.immediate_sign_extended(), 0x7FFF);
}

#[test]
fn decoder_jump_offset_scales_by_four() {
    let w = Instruction((0b000010 << 26) | 0x3FFFFFF);
    assert_eq!(w.opcode(), 0b000010);
    assert_eq!(w.immediate_jump(), 0x3FFFFFF << 2);
}

#[test]
fn decoder_coprocessor_opcode_is_the_s_field() {
    let w = Instruction((0b010000 << 26) | (0b00100 << 21) | (9 << 16) | (12 << 11));
    assert_eq!(w.opcode(), 0b010000);
    assert_eq!(w.coprocessor_opcode(), 0b00100);
    assert_eq!(w.t(), 9);
    assert_eq!(w.d(), 12);
}
