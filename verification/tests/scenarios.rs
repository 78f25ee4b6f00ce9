//! End-to-end programs, hand-assembled and placed at the reset vector.

use psx_core::cpu::CPU;
use psx_core::mmu::MMU;

const NOP: u32 = 0;

fn i_type(op: u32, s: u32, t: u32, imm: u32) -> u32 {
    (op << 26) | (s << 21) | (t << 16) | (imm & 0xFFFF)
}

fn r_type(funct: u32, s: u32, t: u32, d: u32, shamt: u32) -> u32 {
    (s << 21) | (t << 16) | (d << 11) | (shamt << 6) | funct
}

fn j_type(op: u32, target: u32) -> u32 {
    (op << 26) | ((target >> 2) & 0x3FFFFFF)
}

fn lui(t: u32, imm: u32) -> u32 {
    i_type(0x0F, 0, t, imm)
}

fn ori(s: u32, t: u32, imm: u32) -> u32 {
    i_type(0x0D, s, t, imm)
}

fn addiu(s: u32, t: u32, imm: u32) -> u32 {
    i_type(0x09, s, t, imm)
}

fn jr(s: u32) -> u32 {
    r_type(0x08, s, 0, 0, 0)
}

fn sw(base: u32, t: u32, imm: u32) -> u32 {
    i_type(0x2B, base, t, imm)
}

fn mtc0(t: u32, cop0_reg: u32) -> u32 {
    (0x10 << 26) | (0x04 << 21) | (t << 16) | (cop0_reg << 11)
}

fn bios_of(words: &[u32]) -> Vec<u8> {
    let mut bytes = Vec::new();
    for w in words {
        bytes.extend_from_slice(&w.to_le_bytes());
    }
    bytes
}

fn run(cpu: &mut CPU, steps: usize) {
    for _ in 0..steps {
        cpu.step().unwrap();
    }
}

fn run_until_pc(cpu: &mut CPU, pc: u32) {
    let mut budget = 1000;
    while cpu.pc() != pc {
        cpu.step().unwrap();
        budget -= 1;
        assert!(budget > 0, "program never reached 0x{pc:08X}");
    }
}

#[test]
fn scenario_lui_ori_builds_a_constant() {
    // LUI R1, 0x1234; ORI R1, R1, 0x5678  ->  R1 == 0x12345678
    let bios = bios_of(&[lui(1, 0x1234), ori(1, 1, 0x5678)]);
    let mut cpu = CPU::new(MMU::new(bios));
    run(&mut cpu, 2);
    assert_eq!(cpu.register(1), 0x12345678);
}

#[test]
fn scenario_jal_jr_round_trip() {
    // JAL 0xBFC00020 at 0xBFC00000; NOP; at the target JR R31; NOP.
    // After four steps pc == 0xBFC00008 and R31 == 0xBFC00008.
    let mut words = vec![NOP; 10];
    words[0] = j_type(0x03, 0xBFC00020);
    words[1] = NOP;
    words[8] = jr(31); // 0xBFC00020
    words[9] = NOP;
    let mut cpu = CPU::new(MMU::new(bios_of(&words)));
    run(&mut cpu, 4);
    assert_eq!(cpu.pc(), 0xBFC00008);
    assert_eq!(cpu.register(31), 0xBFC00008);
}

#[test]
fn scenario_branch_delay_slot() {
    // ADDIU R1,R0,1; BEQ R0,R0,+2; ADDIU R1,R1,10; ADDIU R1,R1,100
    // The delay slot runs, the branch target skips the +100: R1 == 11.
    let bios = bios_of(&[
        addiu(0, 1, 1),
        i_type(0x04, 0, 0, 2), // BEQ R0, R0, +2
        addiu(1, 1, 10),
        addiu(1, 1, 100),
        NOP, // branch target: 0xBFC00010
        NOP,
    ]);
    let mut cpu = CPU::new(MMU::new(bios));
    run(&mut cpu, 4);
    assert_eq!(cpu.register(1), 11);
    assert_eq!(cpu.pc(), 0xBFC00014);
}

#[test]
fn scenario_load_delay_slot() {
    // Word 0xDEADBEEF at RAM offset 0.
    // LUI R1,0; LW R2,0(R1); ADDU R3,R2,R0; ADDU R4,R2,R0
    // R3 sees the stale R2 (0), R4 sees the loaded value.
    let bios = bios_of(&[
        lui(1, 0),
        i_type(0x23, 1, 2, 0),     // LW R2, 0(R1)
        r_type(0x21, 2, 0, 3, 0),  // ADDU R3, R2, R0
        r_type(0x21, 2, 0, 4, 0),  // ADDU R4, R2, R0
    ]);
    let mut mmu = MMU::new(bios);
    mmu.write(0, 4, 0xDEADBEEF).unwrap();
    let mut cpu = CPU::new(mmu);
    run(&mut cpu, 4);
    assert_eq!(cpu.register(3), 0);
    assert_eq!(cpu.register(4), 0xDEADBEEF);
}

#[test]
fn scenario_cache_isolated_invalidate() {
    // Run a routine from cached KSEG0 RAM; patch it in memory and see the
    // stale cached copy still run; invalidate the line with an isolated
    // store; see the patched routine run after the refill.
    const B: u32 = 0xBFC00000;
    let mut words = vec![NOP; 0x20];
    // R8 = 0x80000100, the KSEG0 alias of the RAM routine
    words[0x00] = lui(8, 0x8000);
    words[0x01] = ori(8, 8, 0x0100);
    // first visit: return to B+0x20
    words[0x02] = lui(11, 0xBFC0);
    words[0x03] = ori(11, 11, 0x0020);
    words[0x04] = jr(8);
    words[0x05] = NOP;
    // back at B+0x20: patch the RAM routine to load 7 instead of 5
    words[0x08] = lui(9, 0x2401); // ADDIU R1, R0, 7 == 0x24010007
    words[0x09] = ori(9, 9, 0x0007);
    words[0x0A] = sw(0, 9, 0x100);
    // second visit: return to B+0x40
    words[0x0B] = lui(11, 0xBFC0);
    words[0x0C] = ori(11, 11, 0x0040);
    words[0x0D] = jr(8);
    words[0x0E] = NOP;
    // back at B+0x40: isolate the cache, invalidate the line, come back
    words[0x10] = lui(10, 0x0001); // status bit 16
    words[0x11] = mtc0(10, 12);
    words[0x12] = sw(0, 0, 0x100); // isolated store: invalidates the line of 0x100
    words[0x13] = mtc0(0, 12); // isolation off
    // third visit: return to B+0x60
    words[0x14] = lui(11, 0xBFC0);
    words[0x15] = ori(11, 11, 0x0060);
    words[0x16] = jr(8);
    words[0x17] = NOP;
    words[0x18] = NOP; // B+0x60

    let mut mmu = MMU::new(bios_of(&words));
    // the RAM routine at physical 0x100: ADDIU R1, R0, 5; JR R11; NOP
    mmu.write(0x100, 4, addiu(0, 1, 5)).unwrap();
    mmu.write(0x104, 4, jr(11)).unwrap();
    mmu.write(0x108, 4, NOP).unwrap();
    // enable the instruction cache, tag-test off
    mmu.write(0xFFFE0130, 4, 0x800).unwrap();

    let mut cpu = CPU::new(mmu);
    run_until_pc(&mut cpu, B + 0x20);
    assert_eq!(cpu.register(1), 5);
    assert_eq!(cpu.register(0), 0);
    run_until_pc(&mut cpu, B + 0x40);
    // the routine was patched in RAM, but the cache line still holds 5
    assert_eq!(cpu.register(1), 5);
    run_until_pc(&mut cpu, B + 0x60);
    // the isolated store invalidated the line; the refill sees the patch
    assert_eq!(cpu.register(1), 7);
}

#[test]
fn scenario_segment_aliasing_through_stores() {
    // SW via KSEG1 0xA0000100, LW back via KUSEG 0x00000100.
    let bios = bios_of(&[
        lui(1, 0x1122),
        ori(1, 1, 0x3344),
        lui(2, 0xA000),           // R2 = 0xA0000100
        ori(2, 2, 0x0100),
        sw(2, 1, 0),              // store to KSEG1 alias
        lui(3, 0x0000),           // R3 = 0x00000100
        ori(3, 3, 0x0100),
        i_type(0x23, 3, 4, 0),    // LW R4, 0(R3) from KUSEG
        NOP,
        NOP,
    ]);
    let mut cpu = CPU::new(MMU::new(bios));
    run(&mut cpu, 10);
    assert_eq!(cpu.register(4), 0x11223344);
}

#[test]
fn scenario_sequential_flow_advances_pc_by_one_word() {
    // For an opcode that does not touch next_pc, after a step
    // next_pc == current_pc + 8.
    let bios = bios_of(&[lui(1, 1), ori(1, 1, 2), NOP]);
    let mut cpu = CPU::new(MMU::new(bios));
    for _ in 0..3 {
        cpu.step().unwrap();
        assert_eq!(cpu.next_pc(), cpu.current_pc().wrapping_add(8));
    }
}

#[test]
fn scenario_writes_to_r0_are_dropped() {
    let bios = bios_of(&[
        addiu(0, 0, 123),         // ADDIU R0, R0, 123
        lui(0, 0xFFFF),           // LUI R0, 0xFFFF
        ori(0, 0, 0xFFFF),        // ORI R0, R0, 0xFFFF
        i_type(0x23, 0, 0, 0x10), // LW R0, 0x10(R0): load into R0
        NOP,                      // retires the pending load into R0
        NOP,
    ]);
    let mut mmu = MMU::new(bios);
    mmu.write(0x10, 4, 0xCAFEBABE).unwrap();
    let mut cpu = CPU::new(mmu);
    for _ in 0..6 {
        cpu.step().unwrap();
        assert_eq!(cpu.register(0), 0);
    }
}
