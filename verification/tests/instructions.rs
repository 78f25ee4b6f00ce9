//! Per-opcode behaviour, driven through small programs at the reset
//! vector.

use psx_core::cop0::Coprocessor;
use psx_core::cpu::CPU;
use psx_core::fault::Fault;
use psx_core::mmu::MMU;

const NOP: u32 = 0;

fn i_type(op: u32, s: u32, t: u32, imm: u32) -> u32 {
    (op << 26) | (s << 21) | (t << 16) | (imm & 0xFFFF)
}

fn r_type(funct: u32, s: u32, t: u32, d: u32, shamt: u32) -> u32 {
    (s << 21) | (t << 16) | (d << 11) | (shamt << 6) | funct
}

fn lui(t: u32, imm: u32) -> u32 {
    i_type(0x0F, 0, t, imm)
}

fn ori(s: u32, t: u32, imm: u32) -> u32 {
    i_type(0x0D, s, t, imm)
}

fn addiu(s: u32, t: u32, imm: u32) -> u32 {
    i_type(0x09, s, t, imm)
}

fn bios_of(words: &[u32]) -> Vec<u8> {
    let mut bytes = Vec::new();
    for w in words {
        bytes.extend_from_slice(&w.to_le_bytes());
    }
    bytes
}

fn run_program(words: &[u32], steps: usize) -> CPU {
    let mut cpu = CPU::new(MMU::new(bios_of(words)));
    for _ in 0..steps {
        cpu.step().unwrap();
    }
    cpu
}

fn run_program_with_ram(words: &[u32], ram: &[(u32, u32)], steps: usize) -> CPU {
    let mut mmu = MMU::new(bios_of(words));
    for (address, value) in ram {
        mmu.write(*address, 4, *value).unwrap();
    }
    let mut cpu = CPU::new(mmu);
    for _ in 0..steps {
        cpu.step().unwrap();
    }
    cpu
}

#[test]
fn alu_addu_subu_and_or_wrap() {
    let cpu = run_program(
        &[
            lui(1, 0xFFFF),
            ori(1, 1, 0xFFFF),        // R1 = 0xFFFFFFFF
            addiu(0, 2, 1),           // R2 = 1
            r_type(0x21, 1, 2, 3, 0), // ADDU R3 = R1 + R2 (wraps to 0)
            r_type(0x23, 3, 2, 4, 0), // SUBU R4 = R3 - R2 (wraps to -1)
            r_type(0x24, 1, 2, 5, 0), // AND  R5 = R1 & R2
            r_type(0x25, 1, 2, 6, 0), // OR   R6 = R1 | R2
        ],
        7,
    );
    assert_eq!(cpu.register(3), 0);
    assert_eq!(cpu.register(4), 0xFFFFFFFF);
    assert_eq!(cpu.register(5), 1);
    assert_eq!(cpu.register(6), 0xFFFFFFFF);
}

#[test]
fn alu_shifts_logical_and_arithmetic() {
    let cpu = run_program(
        &[
            lui(1, 0x8000),           // R1 = 0x80000000
            ori(1, 1, 0x0040),        // R1 = 0x80000040
            r_type(0x00, 0, 1, 2, 4), // SLL R2 = R1 << 4
            r_type(0x02, 0, 1, 3, 4), // SRL R3 = R1 >> 4
            r_type(0x03, 0, 1, 4, 4), // SRA R4 = R1 >> 4 (arithmetic)
            addiu(0, 5, 36),          // R5 = 36 (shift amount, masked to 4)
            r_type(0x06, 5, 1, 6, 0), // SRLV R6 = R1 >> (R5 & 0x1F)
        ],
        7,
    );
    assert_eq!(cpu.register(2), 0x00000400);
    assert_eq!(cpu.register(3), 0x08000004);
    assert_eq!(cpu.register(4), 0xF8000004);
    assert_eq!(cpu.register(6), 0x08000004);
}

#[test]
fn alu_set_less_than_signed_and_unsigned() {
    let cpu = run_program(
        &[
            addiu(0, 1, 0xFFFF),      // R1 = -1 (0xFFFFFFFF)
            addiu(0, 2, 1),           // R2 = 1
            r_type(0x2A, 1, 2, 3, 0), // SLT  R3 = (-1 < 1)  = 1
            r_type(0x2B, 1, 2, 4, 0), // SLTU R4 = (0xFFFFFFFF < 1) = 0
            i_type(0x0A, 1, 5, 0),    // SLTI R5 = (-1 < 0) = 1
            i_type(0x0B, 1, 6, 0xFFFF), // SLTIU R6 = (0xFFFFFFFF < 0xFFFFFFFF) = 0
            i_type(0x0B, 2, 7, 0xFFFF), // SLTIU R7 = (1 < 0xFFFFFFFF) = 1
        ],
        7,
    );
    assert_eq!(cpu.register(3), 1);
    assert_eq!(cpu.register(4), 0);
    assert_eq!(cpu.register(5), 1);
    assert_eq!(cpu.register(6), 0);
    assert_eq!(cpu.register(7), 1);
}

#[test]
fn alu_add_signed_works_inside_range() {
    let cpu = run_program(
        &[
            addiu(0, 1, 0xFFF9),      // R1 = -7
            addiu(0, 2, 3),           // R2 = 3
            r_type(0x20, 1, 2, 3, 0), // ADD R3 = -4
            r_type(0x22, 1, 2, 4, 0), // SUB R4 = -10
            i_type(0x08, 1, 5, 0x000A), // ADDI R5 = R1 + 10 = 3
        ],
        5,
    );
    assert_eq!(cpu.register(3), 0xFFFFFFFC);
    assert_eq!(cpu.register(4), 0xFFFFFFF6);
    assert_eq!(cpu.register(5), 3);
}

#[test]
fn alu_add_overflow_is_fatal() {
    let mut cpu = CPU::new(MMU::new(bios_of(&[
        lui(1, 0x7FFF),
        ori(1, 1, 0xFFFF),          // R1 = i32::MAX
        i_type(0x08, 1, 2, 1),      // ADDI R2 = R1 + 1: overflow
    ])));
    cpu.step().unwrap();
    cpu.step().unwrap();
    let word = i_type(0x08, 1, 2, 1);
    assert_eq!(cpu.step(), Err(Fault::ArithmeticOverflow { word }));
}

#[test]
fn div_signed_truncates_toward_zero() {
    let cpu = run_program(
        &[
            addiu(0, 1, 0xFFF9),      // R1 = -7
            addiu(0, 2, 2),           // R2 = 2
            r_type(0x1A, 1, 2, 0, 0), // DIV -7 / 2
            r_type(0x12, 0, 0, 3, 0), // MFLO R3 (quotient -3)
            r_type(0x10, 0, 0, 4, 0), // MFHI R4 (remainder -1)
        ],
        5,
    );
    assert_eq!(cpu.register(3), 0xFFFFFFFD);
    assert_eq!(cpu.register(4), 0xFFFFFFFF);
}

#[test]
fn div_unsigned_quotient_and_remainder() {
    let cpu = run_program(
        &[
            addiu(0, 1, 7),
            addiu(0, 2, 2),
            r_type(0x1B, 1, 2, 0, 0), // DIVU 7 / 2
            r_type(0x12, 0, 0, 3, 0), // MFLO R3 = 3
            r_type(0x10, 0, 0, 4, 0), // MFHI R4 = 1
        ],
        5,
    );
    assert_eq!(cpu.register(3), 3);
    assert_eq!(cpu.register(4), 1);
}

#[test]
fn div_by_zero_is_fatal() {
    let mut cpu = CPU::new(MMU::new(bios_of(&[
        addiu(0, 1, 5),
        r_type(0x1A, 1, 0, 0, 0), // DIV R1 / R0
    ])));
    cpu.step().unwrap();
    let word = r_type(0x1A, 1, 0, 0, 0);
    assert_eq!(cpu.step(), Err(Fault::DivisionByZero { word }));
}

#[test]
fn div_min_by_minus_one_is_fatal() {
    let mut cpu = CPU::new(MMU::new(bios_of(&[
        lui(1, 0x8000),           // R1 = i32::MIN
        addiu(0, 2, 0xFFFF),      // R2 = -1
        r_type(0x1A, 1, 2, 0, 0), // DIV
    ])));
    cpu.step().unwrap();
    cpu.step().unwrap();
    let word = r_type(0x1A, 1, 2, 0, 0);
    assert_eq!(cpu.step(), Err(Fault::DivisionOverflow { word }));
}

#[test]
fn branches_signed_comparisons() {
    // BLTZ/BGEZ/BNE/BLEZ/BGTZ steering, each with its delay slot.
    let cpu = run_program(
        &[
            addiu(0, 1, 0xFFFF),     // R1 = -1
            i_type(0x01, 1, 0x00, 2), // BLTZ R1, +2: taken
            addiu(0, 2, 1),          // delay slot: R2 = 1
            addiu(0, 2, 100),        // skipped
            i_type(0x06, 1, 0, 2),   // BLEZ R1, +2 (-1 <= 0): taken
            addiu(0, 3, 1),          // delay slot: R3 = 1
            addiu(0, 3, 100),        // skipped
            i_type(0x05, 1, 0, 2),   // BNE R1, R0, +2: taken
            addiu(0, 4, 1),          // delay slot: R4 = 1
            addiu(0, 4, 100),        // skipped
            i_type(0x07, 1, 0, 2),   // BGTZ R1 (-1 > 0): not taken
            addiu(0, 5, 1),          // delay slot: R5 = 1
            addiu(5, 5, 100),        // falls through: R5 = 101
            i_type(0x01, 1, 0x01, 2), // BGEZ R1 (-1 >= 0): not taken
            addiu(0, 6, 1),          // delay slot: R6 = 1
            addiu(6, 6, 100),        // falls through: R6 = 101
            NOP,
        ],
        14,
    );
    assert_eq!(cpu.register(2), 1);
    assert_eq!(cpu.register(3), 1);
    assert_eq!(cpu.register(4), 1);
    assert_eq!(cpu.register(5), 101);
    assert_eq!(cpu.register(6), 101);
}

#[test]
fn branch_unsupported_sub_opcode_is_fatal() {
    let word = (0x01 << 26) | (2 << 16); // REGIMM with t = 2
    let mut cpu = CPU::new(MMU::new(bios_of(&[word])));
    assert_eq!(cpu.step(), Err(Fault::UnsupportedBranch { word }));
}

#[test]
fn unimplemented_opcode_is_fatal() {
    let word = 0xFC000000; // opcode 0x3F
    let mut cpu = CPU::new(MMU::new(bios_of(&[word])));
    assert_eq!(cpu.step(), Err(Fault::Unimplemented { word }));
}

#[test]
fn unimplemented_special_funct_is_fatal() {
    let word = r_type(0x26, 1, 2, 3, 0); // XOR: not in the supported table
    let mut cpu = CPU::new(MMU::new(bios_of(&[word])));
    assert_eq!(cpu.step(), Err(Fault::Unimplemented { word }));
}

#[test]
fn jalr_links_and_jumps() {
    let cpu = run_program(
        &[
            lui(1, 0xBFC0),
            ori(1, 1, 0x0014),        // R1 = 0xBFC00014
            r_type(0x09, 1, 0, 5, 0), // JALR R5, R1
            NOP,                      // delay slot
            NOP,                      // skipped (0xBFC00010)
            addiu(0, 6, 9),           // target 0xBFC00014: R6 = 9
        ],
        5,
    );
    assert_eq!(cpu.register(5), 0xBFC00010);
    assert_eq!(cpu.register(6), 9);
}

#[test]
fn loads_sign_and_zero_extend() {
    let cpu = run_program_with_ram(
        &[
            i_type(0x20, 0, 1, 0x10), // LB  R1, 0x10(R0)
            i_type(0x24, 0, 2, 0x10), // LBU R2, 0x10(R0)
            i_type(0x21, 0, 3, 0x10), // LH  R3, 0x10(R0)
            i_type(0x25, 0, 4, 0x10), // LHU R4, 0x10(R0)
            i_type(0x23, 0, 5, 0x10), // LW  R5, 0x10(R0)
            NOP,
            NOP,
        ],
        &[(0x10, 0xFFFF8080)],
        7,
    );
    assert_eq!(cpu.register(1), 0xFFFFFF80);
    assert_eq!(cpu.register(2), 0x80);
    assert_eq!(cpu.register(3), 0xFFFF8080);
    assert_eq!(cpu.register(4), 0x8080);
    assert_eq!(cpu.register(5), 0xFFFF8080);
}

#[test]
fn stores_byte_half_word() {
    let cpu = run_program(
        &[
            lui(1, 0x1122),
            ori(1, 1, 0x3344),        // R1 = 0x11223344
            i_type(0x28, 0, 1, 0x20), // SB R1, 0x20(R0)
            i_type(0x29, 0, 1, 0x24), // SH R1, 0x24(R0)
            i_type(0x2B, 0, 1, 0x28), // SW R1, 0x28(R0)
            i_type(0x23, 0, 2, 0x20), // LW R2, 0x20(R0)
            i_type(0x23, 0, 3, 0x24), // LW R3, 0x24(R0)
            i_type(0x23, 0, 4, 0x28), // LW R4, 0x28(R0)
            NOP,
            NOP,
        ],
        10,
    );
    assert_eq!(cpu.register(2), 0x00000044);
    assert_eq!(cpu.register(3), 0x00003344);
    assert_eq!(cpu.register(4), 0x11223344);
}

#[test]
fn load_from_unmapped_address_is_fatal() {
    let mut cpu = CPU::new(MMU::new(bios_of(&[
        lui(1, 0x0030),           // R1 = 0x00300000: unmapped
        i_type(0x23, 1, 2, 0),    // LW R2, 0(R1)
    ])));
    cpu.step().unwrap();
    assert_eq!(cpu.step(), Err(Fault::UnmappedRead { address: 0x00300000 }));
}

#[test]
fn cop0_status_round_trip_and_rfe() {
    let cpu = run_program(
        &[
            addiu(0, 1, 0x003F),       // R1 = 0x3F: the full mode stack
            (0x10 << 26) | (0x04 << 21) | (1 << 16) | (12 << 11), // MTC0 R1, status
            (0x10 << 26) | (0x10 << 21),                          // RFE
            (0x10 << 26) | (0x00 << 21) | (2 << 16) | (12 << 11), // MFC0 R2, status
            NOP,                       // retires the MFC0 load
            NOP,
        ],
        6,
    );
    // RFE pops one two-bit entry: 0b111111 -> 0b001111
    assert_eq!(cpu.register(2), 0x0F);
}

#[test]
fn cop0_cause_accepts_only_bits_8_and_9() {
    let cpu = run_program(
        &[
            lui(1, 0xFFFF),
            ori(1, 1, 0xFFFF),         // R1 = all ones
            (0x10 << 26) | (0x04 << 21) | (1 << 16) | (13 << 11), // MTC0 R1, cause
            (0x10 << 26) | (0x00 << 21) | (2 << 16) | (13 << 11), // MFC0 R2, cause
            NOP,
            NOP,
        ],
        6,
    );
    assert_eq!(cpu.register(2), 0x300);
}

#[test]
fn cop0_breakpoint_registers_are_ignored() {
    let cpu = run_program(
        &[
            addiu(0, 1, 7),
            (0x10 << 26) | (0x04 << 21) | (1 << 16) | (3 << 11), // MTC0 R1, reg 3
            (0x10 << 26) | (0x00 << 21) | (2 << 16) | (7 << 11), // MFC0 R2, reg 7
            NOP,
            NOP,
        ],
        5,
    );
    assert_eq!(cpu.register(2), 0);
}

#[test]
fn cop0_unknown_register_is_fatal() {
    let word = (0x10 << 26) | (0x00 << 21) | (2 << 16) | (4 << 11); // MFC0 of reg 4
    let mut cpu = CPU::new(MMU::new(bios_of(&[word])));
    assert_eq!(
        cpu.step(),
        Err(Fault::UnimplementedCop0Register { register: 4 })
    );
}

#[test]
fn cop0_unknown_sub_opcode_is_fatal() {
    let word = (0x10 << 26) | (0x02 << 21); // COP0 with sub-opcode 2
    let mut cpu = CPU::new(MMU::new(bios_of(&[word])));
    assert_eq!(
        cpu.step(),
        Err(Fault::UnimplementedCop0Opcode { opcode: 2 })
    );
}

#[test]
fn coprocessor_reports_cache_isolation() {
    let cop = Coprocessor::new();
    assert!(!cop.is_cache_isolated());
}

#[test]
fn load_supersedes_pending_load_of_same_register() {
    // Two back-to-back loads into the same register: the first is
    // dropped, the second lands.
    let cpu = run_program_with_ram(
        &[
            i_type(0x23, 0, 1, 0x10), // LW R1, 0x10(R0)
            i_type(0x23, 0, 1, 0x14), // LW R1, 0x14(R0): supersedes
            NOP,
            NOP,
        ],
        &[(0x10, 111), (0x14, 222)],
        4,
    );
    assert_eq!(cpu.register(1), 222);
}

#[test]
fn expansion_region_reads_feed_loads_as_ones() {
    let cpu = run_program(
        &[
            lui(1, 0x1F00),           // R1 = 0x1F000000: expansion 1
            i_type(0x24, 1, 2, 0),    // LBU R2, 0(R1)
            NOP,
            NOP,
        ],
        4,
    );
    assert_eq!(cpu.register(2), 0xFFFFFFFF);
}
