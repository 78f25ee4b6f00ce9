//! The R3000A-compatible CPU core: register file, pipelined PC triple,
//! HI/LO, the pending-load slot, the instruction cache, and the
//! fetch-rotate-execute step.
//!
//! The PC triple is what implements the branch delay slot: `current_pc`
//! names the instruction just issued, `pc` the next fetch, `next_pc` the
//! one after. Branches and jumps overwrite only `next_pc`, so the
//! instruction already at `pc` still executes before control transfers.
//! The pending-load slot `(register, value)` is what implements the load
//! delay slot: a load parks its result there, and the slot retires into
//! the register file only when the following instruction commits.

use vstd::prelude::*;

use crate::arith::as_signed;
use crate::arith::checked_signed_add;
use crate::arith::checked_signed_sub;
use crate::arith::extend_byte_signed;
use crate::arith::extend_half_signed;
use crate::arith::arithmetic_shift_right;
use crate::arith::shift_right_arithmetic;
use crate::arith::sign_extend_byte;
use crate::arith::sign_extend_half;
use crate::arith::signed_add_overflows;
use crate::arith::signed_div_quotient;
use crate::arith::signed_div_remainder;
use crate::arith::signed_divide;
use crate::arith::signed_less_than;
use crate::arith::signed_lt;
use crate::arith::signed_sub_overflows;
use crate::arith::wrap_add;
use crate::arith::wrap_sub;
use crate::cache::InstructionCacheLine;
use crate::cache::cache_tag;
use crate::cache::line_index;
use crate::cache::spec_cache_tag;
use crate::cache::spec_line_index;
use crate::cache::spec_word_index;
use crate::cache::word_index;
use crate::cop0::Coprocessor;
use crate::fault::Fault;
use crate::instruction::Instruction;
use crate::instruction::spec_coprocessor_opcode;
use crate::instruction::spec_d;
use crate::instruction::spec_immediate;
use crate::instruction::spec_immediate_jump;
use crate::instruction::spec_immediate_shift;
use crate::instruction::spec_immediate_sign_extended;
use crate::instruction::spec_opcode;
use crate::instruction::spec_s;
use crate::instruction::spec_secondary_opcode;
use crate::instruction::spec_t;
use crate::mmu::MMU;
use crate::mmu::MmuView;

verus! {

/// The address of the first instruction fetched after reset.
pub const START_PC: u32 = 0xBFC00000;

/// The CPU core. It owns the MMU and the instruction cache.
pub struct CPU {
    registers: [u32; 32],
    current_pc: u32,
    pc: u32,
    next_pc: u32,
    hi: u32,
    lo: u32,
    mmu: MMU,
    cop0: Coprocessor,
    next_load: (u32, u32),
    instruction_cache: [InstructionCacheLine; 256],
}

/// The mathematical value of a `CPU`: the same architectural state over
/// `Seq`.
#[verifier::ext_equal]
pub ghost struct CpuView {
    pub registers: Seq<u32>,
    pub current_pc: u32,
    pub pc: u32,
    pub next_pc: u32,
    pub hi: u32,
    pub lo: u32,
    pub mmu: MmuView,
    pub cop0: Coprocessor,
    pub next_load: (u32, u32),
    pub icache: Seq<InstructionCacheLine>,
}

impl View for CPU {
    type V = CpuView;

    closed spec fn view(&self) -> CpuView {
        CpuView {
            registers: self.registers@,
            current_pc: self.current_pc,
            pc: self.pc,
            next_pc: self.next_pc,
            hi: self.hi,
            lo: self.lo,
            mmu: self.mmu@,
            cop0: self.cop0,
            next_load: self.next_load,
            icache: self.instruction_cache@,
        }
    }
}

/// The register file after a write of `v` to register `r`: writes to R0
/// are dropped, so R0 always reads 0.
pub open spec fn set_reg(registers: Seq<u32>, r: u32, v: u32) -> Seq<u32> {
    if r == 0 {
        registers
    } else {
        registers.update(r as int, v)
    }
}

impl CpuView {
    /// Structural facts every reachable CPU state satisfies; foremost,
    /// that R0 reads 0.
    pub open spec fn wf(self) -> bool {
        &&& self.registers.len() == 32
        &&& self.registers[0] == 0
        &&& self.next_load.0 < 32
        &&& self.icache.len() == 256
        &&& self.mmu.wf()
    }

    /// The state at reset over the given MMU: registers, HI/LO and
    /// coprocessor 0 zeroed, the PC triple aimed at the BIOS entry point,
    /// the pending-load slot idle, every cache line invalid.
    pub open spec fn reset(mmu: MmuView) -> CpuView {
        CpuView {
            registers: Seq::new(32, |i: int| 0u32),
            current_pc: 0,
            pc: START_PC,
            next_pc: 0xBFC00004,
            hi: 0,
            lo: 0,
            mmu: mmu,
            cop0: Coprocessor::reset(),
            next_load: (0u32, 0u32),
            icache: Seq::new(256, |i: int| InstructionCacheLine::reset()),
        }
    }

    /// The value register `r` reads.
    pub open spec fn reg(self, r: u32) -> u32 {
        self.registers[r as int]
    }

    /// The state after the pending load retires into the register file
    /// and the slot falls idle.
    pub open spec fn finish_load(self) -> CpuView {
        CpuView {
            registers: set_reg(self.registers, self.next_load.0, self.next_load.1),
            next_load: (0u32, 0u32),
            ..self
        }
    }

    /// The state after a new load of `v` into register `r` is scheduled:
    /// a pending load of a different register retires first, a pending
    /// load of the same register is superseded.
    pub open spec fn setup_load(self, r: u32, v: u32) -> CpuView {
        CpuView {
            registers: if self.next_load.0 != r {
                set_reg(self.registers, self.next_load.0, self.next_load.1)
            } else {
                self.registers
            },
            next_load: (r, v),
            ..self
        }
    }

    /// The state after an instruction that retires the pending load and
    /// then writes `v` to register `r`.
    pub open spec fn commit_reg(self, r: u32, v: u32) -> CpuView {
        let retired = self.finish_load();
        CpuView { registers: set_reg(retired.registers, r, v), ..retired }
    }
}

/// The cache line refilled word by word from memory: words `j..3` are
/// replaced by the words at `address`, `address + 4`, ..., or the first
/// read fault is surfaced.
pub open spec fn spec_refill_from(
    mmu: MmuView,
    line: InstructionCacheLine,
    address: u32,
    j: int,
) -> Result<InstructionCacheLine, Fault>
    decreases 4 - j,
{
    if j >= 4 {
        Ok(line)
    } else {
        match mmu.spec_read(address, 4) {
            Err(f) => Err(f),
            Ok(w) => spec_refill_from(mmu, line.with_word(j, w), wrap_add(address, 4), j + 1),
        }
    }
}

/// The word a fetch at `s.pc` returns together with the cache state it
/// leaves behind, or the fault the fetch raises.
///
/// When the cache is enabled and `pc` lies below KSEG1 (which is never
/// cached), the selected line serves the fetch; on a tag mismatch or an
/// invalid word the line is first refilled from the missing word to its
/// end and marked valid from that word. Otherwise the word comes straight
/// from the MMU.
pub open spec fn spec_fetch(s: CpuView) -> Result<(u32, Seq<InstructionCacheLine>), Fault> {
    if s.mmu.cache_enabled() && s.pc < 0xA0000000 {
        let tag = spec_cache_tag(s.pc);
        let li = spec_line_index(s.pc);
        let wi = spec_word_index(s.pc);
        let line = s.icache[li];
        if line.tag != tag || line.valid > wi {
            match spec_refill_from(s.mmu, line, s.pc, wi) {
                Err(f) => Err(f),
                Ok(filled) => {
                    let updated = InstructionCacheLine {
                        tag: tag,
                        valid: wi as u32,
                        ..filled
                    };
                    Ok((updated.word(wi), s.icache.update(li, updated)))
                },
            }
        } else {
            Ok((line.word(wi), s.icache))
        }
    } else {
        match s.mmu.spec_read(s.pc, 4) {
            Err(f) => Err(f),
            Ok(w) => Ok((w, s.icache)),
        }
    }
}

/// The state after a branch instruction: when `taken`, `next_pc` moves to
/// `pc` (already rotated to the delay-slot address) plus the scaled
/// sign-extended immediate; either way the pending load retires.
pub open spec fn spec_branch(s: CpuView, w: u32, taken: bool) -> CpuView {
    let routed = if taken {
        CpuView { next_pc: wrap_add(s.pc, spec_immediate_sign_extended(w) << 2), ..s }
    } else {
        s
    };
    routed.finish_load()
}

/// The cache after a cache-isolated store at `address`: in tag-test mode
/// the stored value replaces the line's tag, otherwise it replaces the
/// addressed data word; either way the line is wholly invalidated.
pub open spec fn spec_store_icache(
    icache: Seq<InstructionCacheLine>,
    tag_test: bool,
    address: u32,
    value: u32,
) -> Seq<InstructionCacheLine> {
    let li = spec_line_index(address);
    let line = icache[li];
    let written = if tag_test {
        InstructionCacheLine { tag: value, ..line }
    } else {
        line.with_word(spec_word_index(address), value)
    };
    icache.update(li, InstructionCacheLine { valid: 4, ..written })
}

/// The state after SB/SH/SW: with coprocessor 0 isolating the cache the
/// store diverts into the instruction cache, otherwise it goes to memory.
pub open spec fn spec_store(s: CpuView, w: u32, size: u32) -> Result<CpuView, Fault> {
    let address = wrap_add(s.reg(spec_s(w)), spec_immediate_sign_extended(w));
    let value = s.reg(spec_t(w));
    let retired = s.finish_load();
    if retired.cop0.spec_cache_isolated() {
        Ok(
            CpuView {
                icache: spec_store_icache(
                    retired.icache,
                    retired.mmu.cache_tag_test(),
                    address,
                    value,
                ),
                ..retired
            },
        )
    } else {
        match retired.mmu.spec_write(address, size, value) {
            Ok(m) => Ok(CpuView { mmu: m, ..retired }),
            Err(f) => Err(f),
        }
    }
}

/// The SPECIAL (opcode 0) instructions, selected by the secondary opcode.
pub open spec fn spec_execute_special(s: CpuView, w: u32) -> Result<CpuView, Fault> {
    let funct = spec_secondary_opcode(w);
    if funct == 0x00 {
        // SLL
        Ok(s.commit_reg(spec_d(w), s.reg(spec_t(w)) << spec_immediate_shift(w)))
    } else if funct == 0x02 {
        // SRL
        Ok(s.commit_reg(spec_d(w), s.reg(spec_t(w)) >> spec_immediate_shift(w)))
    } else if funct == 0x03 {
        // SRA
        Ok(
            s.commit_reg(
                spec_d(w),
                shift_right_arithmetic(s.reg(spec_t(w)), spec_immediate_shift(w)),
            ),
        )
    } else if funct == 0x06 {
        // SRLV
        Ok(s.commit_reg(spec_d(w), s.reg(spec_t(w)) >> (s.reg(spec_s(w)) % 32)))
    } else if funct == 0x08 {
        // JR
        Ok((CpuView { next_pc: s.reg(spec_s(w)), ..s }).finish_load())
    } else if funct == 0x09 {
        // JALR
        let return_address = s.next_pc;
        let routed = (CpuView { next_pc: s.reg(spec_s(w)), ..s }).finish_load();
        Ok(CpuView { registers: set_reg(routed.registers, spec_d(w), return_address), ..routed })
    } else if funct == 0x10 {
        // MFHI
        Ok(s.commit_reg(spec_d(w), s.hi))
    } else if funct == 0x12 {
        // MFLO
        Ok(s.commit_reg(spec_d(w), s.lo))
    } else if funct == 0x1A {
        // DIV
        let n = s.reg(spec_s(w));
        let d = s.reg(spec_t(w));
        if d == 0 {
            Err(Fault::DivisionByZero { word: w })
        } else if n == 0x80000000 && d == 0xFFFFFFFF {
            Err(Fault::DivisionOverflow { word: w })
        } else {
            let retired = s.finish_load();
            Ok(
                CpuView {
                    hi: signed_div_remainder(n, d),
                    lo: signed_div_quotient(n, d),
                    ..retired
                },
            )
        }
    } else if funct == 0x1B {
        // DIVU
        let n = s.reg(spec_s(w));
        let d = s.reg(spec_t(w));
        if d == 0 {
            Err(Fault::DivisionByZero { word: w })
        } else {
            let retired = s.finish_load();
            Ok(CpuView { hi: n % d, lo: n / d, ..retired })
        }
    } else if funct == 0x20 {
        // ADD
        let a = s.reg(spec_s(w));
        let b = s.reg(spec_t(w));
        if signed_add_overflows(a, b) {
            Err(Fault::ArithmeticOverflow { word: w })
        } else {
            Ok(s.commit_reg(spec_d(w), wrap_add(a, b)))
        }
    } else if funct == 0x21 {
        // ADDU
        Ok(s.commit_reg(spec_d(w), wrap_add(s.reg(spec_s(w)), s.reg(spec_t(w)))))
    } else if funct == 0x22 {
        // SUB
        let a = s.reg(spec_s(w));
        let b = s.reg(spec_t(w));
        if signed_sub_overflows(a, b) {
            Err(Fault::ArithmeticOverflow { word: w })
        } else {
            Ok(s.commit_reg(spec_d(w), wrap_sub(a, b)))
        }
    } else if funct == 0x23 {
        // SUBU
        Ok(s.commit_reg(spec_d(w), wrap_sub(s.reg(spec_s(w)), s.reg(spec_t(w)))))
    } else if funct == 0x24 {
        // AND
        Ok(s.commit_reg(spec_d(w), s.reg(spec_s(w)) & s.reg(spec_t(w))))
    } else if funct == 0x25 {
        // OR
        Ok(s.commit_reg(spec_d(w), s.reg(spec_s(w)) | s.reg(spec_t(w))))
    } else if funct == 0x2A {
        // SLT
        Ok(
            s.commit_reg(
                spec_d(w),
                if signed_lt(s.reg(spec_s(w)), s.reg(spec_t(w))) {
                    1u32
                } else {
                    0u32
                },
            ),
        )
    } else if funct == 0x2B {
        // SLTU
        Ok(
            s.commit_reg(
                spec_d(w),
                if s.reg(spec_s(w)) < s.reg(spec_t(w)) {
                    1u32
                } else {
                    0u32
                },
            ),
        )
    } else {
        Err(Fault::Unimplemented { word: w })
    }
}

/// The REGIMM (opcode 1) branches, selected by the `t` field.
pub open spec fn spec_execute_regimm(s: CpuView, w: u32) -> Result<CpuView, Fault> {
    let sub = spec_t(w);
    if sub == 0x00 {
        // BLTZ
        Ok(spec_branch(s, w, as_signed(s.reg(spec_s(w))) < 0))
    } else if sub == 0x01 {
        // BGEZ
        Ok(spec_branch(s, w, as_signed(s.reg(spec_s(w))) >= 0))
    } else if sub == 0x10 || sub == 0x11 {
        // BLTZAL / BGEZAL
        Err(Fault::Unimplemented { word: w })
    } else {
        Err(Fault::UnsupportedBranch { word: w })
    }
}

/// The COP0 (opcode 16) instructions, selected by the coprocessor
/// sub-opcode: MFC0 schedules a load of a coprocessor register, MTC0
/// writes one, RFE pops the mode stack. Registers 3, 5, 6, 7, 9 and 11
/// (breakpoint machinery) are accepted and ignored.
pub open spec fn spec_execute_cop0(s: CpuView, w: u32) -> Result<CpuView, Fault> {
    let sub = spec_coprocessor_opcode(w);
    if sub == 0x00 {
        // MFC0
        let target = spec_t(w);
        let cop0_reg = spec_d(w);
        if cop0_reg == 3 || cop0_reg == 5 || cop0_reg == 6 || cop0_reg == 7 || cop0_reg == 9
            || cop0_reg == 11 {
            Ok(s)
        } else if cop0_reg == 12 {
            Ok(s.setup_load(target, s.cop0.status))
        } else if cop0_reg == 13 {
            Ok(s.setup_load(target, s.cop0.cause))
        } else {
            Err(Fault::UnimplementedCop0Register { register: cop0_reg })
        }
    } else if sub == 0x04 {
        // MTC0
        let value = s.reg(spec_t(w));
        let cop0_reg = spec_d(w);
        let retired = s.finish_load();
        if cop0_reg == 3 || cop0_reg == 5 || cop0_reg == 6 || cop0_reg == 7 || cop0_reg == 9
            || cop0_reg == 11 {
            Ok(retired)
        } else if cop0_reg == 12 {
            Ok(CpuView { cop0: Coprocessor { status: value, ..retired.cop0 }, ..retired })
        } else if cop0_reg == 13 {
            Ok(CpuView { cop0: retired.cop0.with_cause_write(value), ..retired })
        } else {
            Err(Fault::UnimplementedCop0Register { register: cop0_reg })
        }
    } else if sub == 0x10 {
        // RFE
        let retired = s.finish_load();
        Ok(CpuView { cop0: retired.cop0.after_rfe(), ..retired })
    } else {
        Err(Fault::UnimplementedCop0Opcode { opcode: sub })
    }
}

/// One instruction executed over state `s` (the PC triple already
/// rotated): the transition the executable core is proved to implement,
/// arm by arm.
pub open spec fn spec_execute(s: CpuView, w: u32) -> Result<CpuView, Fault> {
    let op = spec_opcode(w);
    if op == 0x00 {
        spec_execute_special(s, w)
    } else if op == 0x01 {
        spec_execute_regimm(s, w)
    } else if op == 0x02 {
        // J
        Ok(
            (CpuView {
                next_pc: (s.pc & 0xF0000000) | spec_immediate_jump(w),
                ..s
            }).finish_load(),
        )
    } else if op == 0x03 {
        // JAL
        let return_address = s.next_pc;
        let routed = (CpuView {
            next_pc: (s.pc & 0xF0000000) | spec_immediate_jump(w),
            ..s
        }).finish_load();
        Ok(CpuView { registers: set_reg(routed.registers, 31, return_address), ..routed })
    } else if op == 0x04 {
        // BEQ
        Ok(spec_branch(s, w, s.reg(spec_s(w)) == s.reg(spec_t(w))))
    } else if op == 0x05 {
        // BNE
        Ok(spec_branch(s, w, s.reg(spec_s(w)) != s.reg(spec_t(w))))
    } else if op == 0x06 {
        // BLEZ
        Ok(spec_branch(s, w, as_signed(s.reg(spec_s(w))) <= 0))
    } else if op == 0x07 {
        // BGTZ
        Ok(spec_branch(s, w, as_signed(s.reg(spec_s(w))) > 0))
    } else if op == 0x08 {
        // ADDI
        let a = s.reg(spec_s(w));
        let b = spec_immediate_sign_extended(w);
        if signed_add_overflows(a, b) {
            Err(Fault::ArithmeticOverflow { word: w })
        } else {
            Ok(s.commit_reg(spec_t(w), wrap_add(a, b)))
        }
    } else if op == 0x09 {
        // ADDIU
        Ok(s.commit_reg(spec_t(w), wrap_add(s.reg(spec_s(w)), spec_immediate_sign_extended(w))))
    } else if op == 0x0A {
        // SLTI
        Ok(
            s.commit_reg(
                spec_t(w),
                if signed_lt(s.reg(spec_s(w)), spec_immediate_sign_extended(w)) {
                    1u32
                } else {
                    0u32
                },
            ),
        )
    } else if op == 0x0B {
        // SLTIU
        Ok(
            s.commit_reg(
                spec_t(w),
                if s.reg(spec_s(w)) < spec_immediate_sign_extended(w) {
                    1u32
                } else {
                    0u32
                },
            ),
        )
    } else if op == 0x0C {
        // ANDI
        Ok(s.commit_reg(spec_t(w), s.reg(spec_s(w)) & spec_immediate(w)))
    } else if op == 0x0D {
        // ORI
        Ok(s.commit_reg(spec_t(w), s.reg(spec_s(w)) | spec_immediate(w)))
    } else if op == 0x0F {
        // LUI
        Ok(s.commit_reg(spec_t(w), spec_immediate(w) << 16))
    } else if op == 0x10 {
        spec_execute_cop0(s, w)
    } else if op == 0x20 {
        // LB
        let address = wrap_add(s.reg(spec_s(w)), spec_immediate_sign_extended(w));
        match s.mmu.spec_read(address, 1) {
            Err(f) => Err(f),
            Ok(v) => Ok(s.setup_load(spec_t(w), sign_extend_byte(v))),
        }
    } else if op == 0x21 {
        // LH
        let address = wrap_add(s.reg(spec_s(w)), spec_immediate_sign_extended(w));
        match s.mmu.spec_read(address, 2) {
            Err(f) => Err(f),
            Ok(v) => Ok(s.setup_load(spec_t(w), sign_extend_half(v))),
        }
    } else if op == 0x23 {
        // LW
        let address = wrap_add(s.reg(spec_s(w)), spec_immediate_sign_extended(w));
        match s.mmu.spec_read(address, 4) {
            Err(f) => Err(f),
            Ok(v) => Ok(s.setup_load(spec_t(w), v)),
        }
    } else if op == 0x24 {
        // LBU
        let address = wrap_add(s.reg(spec_s(w)), spec_immediate_sign_extended(w));
        match s.mmu.spec_read(address, 1) {
            Err(f) => Err(f),
            Ok(v) => Ok(s.setup_load(spec_t(w), v)),
        }
    } else if op == 0x25 {
        // LHU
        let address = wrap_add(s.reg(spec_s(w)), spec_immediate_sign_extended(w));
        match s.mmu.spec_read(address, 2) {
            Err(f) => Err(f),
            Ok(v) => Ok(s.setup_load(spec_t(w), v)),
        }
    } else if op == 0x28 {
        // SB
        spec_store(s, w, 1)
    } else if op == 0x29 {
        // SH
        spec_store(s, w, 2)
    } else if op == 0x2B {
        // SW
        spec_store(s, w, 4)
    } else {
        Err(Fault::Unimplemented { word: w })
    }
}

/// One whole step: fetch at `pc`, rotate the PC triple, execute, advance
/// the peripherals one cycle (a no-op of the timer stub).
pub open spec fn spec_step(s: CpuView) -> Result<CpuView, Fault> {
    match spec_fetch(s) {
        Err(f) => Err(f),
        Ok(fetched) => {
            let rotated = CpuView {
                current_pc: s.pc,
                pc: s.next_pc,
                next_pc: wrap_add(s.next_pc, 4),
                icache: fetched.1,
                ..s
            };
            spec_execute(rotated, fetched.0)
        },
    }
}

impl CPU {
    /// Structural facts every reachable CPU satisfies.
    pub open spec fn wf(self) -> bool {
        self@.wf()
    }

    /// A CPU at reset, owning the given MMU.
    pub fn new(mmu: MMU) -> (r: CPU)
        requires
            mmu.wf(),
        ensures
            r.wf(),
            r@ == CpuView::reset(mmu@),
    {
        let cpu = CPU {
            registers: [0; 32],
            current_pc: 0,
            pc: START_PC,
            next_pc: 0xBFC00004,
            hi: 0,
            lo: 0,
            mmu,
            cop0: Coprocessor::new(),
            next_load: (0, 0),
            instruction_cache: [InstructionCacheLine::new(); 256],
        };
        proof {
            assert(cpu@.registers =~= Seq::new(32, |i: int| 0u32));
            assert(cpu@.icache =~= Seq::new(256, |i: int| InstructionCacheLine::reset()));
            assert(cpu@ =~= CpuView::reset(cpu@.mmu));
        }
        cpu
    }

    /// The value register `index` reads.
    pub fn register(&self, index: u32) -> (r: u32)
        requires
            index < 32,
        ensures
            r == self@.reg(index),
    {
        self.registers[index as usize]
    }

    /// The address of the instruction most recently issued.
    pub fn current_pc(&self) -> (r: u32)
        ensures
            r == self@.current_pc,
    {
        self.current_pc
    }

    /// The address of the next instruction to fetch.
    pub fn pc(&self) -> (r: u32)
        ensures
            r == self@.pc,
    {
        self.pc
    }

    /// The address of the instruction after the next one.
    pub fn next_pc(&self) -> (r: u32)
        ensures
            r == self@.next_pc,
    {
        self.next_pc
    }

    /// The HI register (remainders and high product words).
    pub fn hi(&self) -> (r: u32)
        ensures
            r == self@.hi,
    {
        self.hi
    }

    /// The LO register (quotients and low product words).
    pub fn lo(&self) -> (r: u32)
        ensures
            r == self@.lo,
    {
        self.lo
    }

    /// Write `v` to register `r`, dropping writes to R0.
    fn set_reg(&mut self, r: u32, v: u32)
        requires
            r < 32,
            old(self)@.registers.len() == 32,
        ensures
            final(self)@ == (CpuView { registers: set_reg(old(self)@.registers, r, v), ..old(self)@ }),
    {
        if r != 0 {
            self.registers[r as usize] = v;
        }
    }

    /// Retire the pending load into the register file and idle the slot.
    fn finish_load(&mut self)
        requires
            old(self).wf(),
        ensures
            final(self)@ == old(self)@.finish_load(),
            final(self).wf(),
    {
        let (r, v) = self.next_load;
        self.set_reg(r, v);
        self.next_load = (0, 0);
    }

    /// Schedule a load of `v` into register `r`, retiring or superseding
    /// the pending load as the load-delay rule asks.
    fn setup_load(&mut self, register: u32, value: u32)
        requires
            old(self).wf(),
            register < 32,
        ensures
            final(self)@ == old(self)@.setup_load(register, value),
            final(self).wf(),
    {
        if self.next_load.0 != register {
            let (r, v) = self.next_load;
            self.set_reg(r, v);
        }
        self.next_load = (register, value);
    }

    /// Retire the pending load, then write `value` to register `r`: the
    /// commit every non-load instruction performs.
    fn commit_reg(&mut self, r: u32, value: u32)
        requires
            old(self).wf(),
            r < 32,
        ensures
            final(self)@ == old(self)@.commit_reg(r, value),
            final(self).wf(),
    {
        self.finish_load();
        self.set_reg(r, value);
    }

    /// Fetch the instruction at `pc`, through the cache when it is
    /// enabled and `pc` lies in a cached segment.
    fn load_instruction(&mut self) -> (r: Result<Instruction, Fault>)
        requires
            old(self).wf(),
        ensures
            final(self).wf(),
            match spec_fetch(old(self)@) {
                Ok(fetched) => r == Ok::<Instruction, Fault>(Instruction(fetched.0))
                    && final(self)@ == (CpuView { icache: fetched.1, ..old(self)@ }),
                Err(f) => r == Err::<Instruction, Fault>(f) && final(self)@ == old(self)@,
            },
    {
        if self.mmu.is_instruction_cache_enabled() && self.pc < 0xA0000000 {
            let tag = cache_tag(self.pc);
            let li = line_index(self.pc);
            let wi = word_index(self.pc);
            let mut line = self.instruction_cache[li as usize];
            if tag != line.tag || line.valid > wi {
                let ghost line0 = line;
                let mut address = self.pc;
                let mut i = wi;
                #[verifier::loop_isolation(false)]
                while i < 4
                    invariant
                        wi <= i <= 4,
                        old(self).wf(),
                        *self == *old(self),
                        spec_refill_from(old(self)@.mmu, line0, old(self)@.pc, wi as int)
                            == spec_refill_from(old(self)@.mmu, line, address, i as int),
                    decreases 4 - i,
                {
                    match self.mmu.read(address, 4) {
                        Err(f) => {
                            proof {
                                assert(spec_refill_from(old(self)@.mmu, line, address, i as int)
                                    == Err::<InstructionCacheLine, Fault>(f));
                            }
                            return Err(f);
                        },
                        Ok(w) => {
                            line.set_word(i, w);
                        },
                    }
                    address = address.wrapping_add(4);
                    i = i + 1;
                }
                line.tag = tag;
                line.valid = wi;
                self.instruction_cache[li as usize] = line;
                proof {
                    assert(final(self)@ =~= (CpuView {
                        icache: old(self)@.icache.update(
                            spec_line_index(old(self)@.pc),
                            line,
                        ),
                        ..old(self)@
                    }));
                }
                return Ok(Instruction(line.read_word(wi)));
            }
            return Ok(Instruction(line.read_word(wi)));
        }
        match self.mmu.read(self.pc, 4) {
            Ok(w) => Ok(Instruction(w)),
            Err(f) => Err(f),
        }
    }

    /// A cache-isolated store: divert `value` into the cache line that
    /// `address` selects, invalidating the line. In tag-test mode the
    /// value lands on the tag, otherwise on the addressed data word.
    fn store_instruction_cache(&mut self, address: u32, value: u32)
        requires
            old(self).wf(),
        ensures
            final(self).wf(),
            final(self)@ == (CpuView {
                icache: spec_store_icache(
                    old(self)@.icache,
                    old(self)@.mmu.cache_tag_test(),
                    address,
                    value,
                ),
                ..old(self)@
            }),
    {
        let li = line_index(address);
        let wi = word_index(address);
        let mut cache_line = self.instruction_cache[li as usize];
        if self.mmu.is_instruction_cache_tag_test_mode() {
            cache_line.tag = value;
        } else {
            cache_line.set_word(wi, value);
        }
        cache_line.valid = 4;
        self.instruction_cache[li as usize] = cache_line;
        proof {
            assert(self@ =~= (CpuView {
                icache: spec_store_icache(
                    old(self)@.icache,
                    old(self)@.mmu.cache_tag_test(),
                    address,
                    value,
                ),
                ..old(self)@
            }));
        }
    }

    /// Route a branch: when taken, `next_pc` moves to the delay-slot
    /// address plus the scaled immediate; either way the pending load
    /// retires.
    fn branch(&mut self, instruction: Instruction, taken: bool)
        requires
            old(self).wf(),
        ensures
            final(self).wf(),
            final(self)@ == spec_branch(old(self)@, instruction.0, taken),
    {
        if taken {
            let immediate = instruction.immediate_sign_extended();
            self.next_pc = self.pc.wrapping_add(immediate << 2);
        }
        self.finish_load();
    }

    /// Execute a SPECIAL (opcode 0) instruction.
    fn execute_special(&mut self, instruction: Instruction) -> (r: Result<(), Fault>)
        requires
            old(self).wf(),
        ensures
            final(self).wf(),
            match spec_execute_special(old(self)@, instruction.0) {
                Ok(v) => r == Ok::<(), Fault>(()) && final(self)@ == v,
                Err(f) => r == Err::<(), Fault>(f) && final(self)@.mmu == old(self)@.mmu,
            },
    {
        let funct = instruction.secondary_opcode();
        if funct == 0x00 {
            // SLL
            let value = self.register(instruction.t()) << instruction.immediate_shift();
            self.commit_reg(instruction.d(), value);
            Ok(())
        } else if funct == 0x02 {
            // SRL
            let value = self.register(instruction.t()) >> instruction.immediate_shift();
            self.commit_reg(instruction.d(), value);
            Ok(())
        } else if funct == 0x03 {
            // SRA
            let value = arithmetic_shift_right(
                self.register(instruction.t()),
                instruction.immediate_shift(),
            );
            self.commit_reg(instruction.d(), value);
            Ok(())
        } else if funct == 0x06 {
            // SRLV
            let value = self.register(instruction.t()) >> (self.register(instruction.s()) % 32);
            self.commit_reg(instruction.d(), value);
            Ok(())
        } else if funct == 0x08 {
            // JR
            let target = self.register(instruction.s());
            self.next_pc = target;
            self.finish_load();
            Ok(())
        } else if funct == 0x09 {
            // JALR
            let return_address = self.next_pc;
            let target = self.register(instruction.s());
            self.next_pc = target;
            self.finish_load();
            self.set_reg(instruction.d(), return_address);
            Ok(())
        } else if funct == 0x10 {
            // MFHI
            let value = self.hi;
            self.commit_reg(instruction.d(), value);
            Ok(())
        } else if funct == 0x12 {
            // MFLO
            let value = self.lo;
            self.commit_reg(instruction.d(), value);
            Ok(())
        } else if funct == 0x1A {
            // DIV
            let numerator = self.register(instruction.s());
            let denominator = self.register(instruction.t());
            self.finish_load();
            if denominator == 0 {
                return Err(Fault::DivisionByZero { word: instruction.0 });
            }
            if numerator == 0x80000000 && denominator == 0xFFFFFFFF {
                return Err(Fault::DivisionOverflow { word: instruction.0 });
            }
            let division = signed_divide(numerator, denominator);
            self.hi = division.1;
            self.lo = division.0;
            Ok(())
        } else if funct == 0x1B {
            // DIVU
            let numerator = self.register(instruction.s());
            let denominator = self.register(instruction.t());
            self.finish_load();
            if denominator == 0 {
                return Err(Fault::DivisionByZero { word: instruction.0 });
            }
            self.hi = numerator % denominator;
            self.lo = numerator / denominator;
            Ok(())
        } else if funct == 0x20 {
            // ADD
            let a = self.register(instruction.s());
            let b = self.register(instruction.t());
            match checked_signed_add(a, b) {
                Some(value) => {
                    self.commit_reg(instruction.d(), value);
                    Ok(())
                },
                None => Err(Fault::ArithmeticOverflow { word: instruction.0 }),
            }
        } else if funct == 0x21 {
            // ADDU
            let value = self.register(instruction.s()).wrapping_add(
                self.register(instruction.t()),
            );
            self.commit_reg(instruction.d(), value);
            Ok(())
        } else if funct == 0x22 {
            // SUB
            let a = self.register(instruction.s());
            let b = self.register(instruction.t());
            match checked_signed_sub(a, b) {
                Some(value) => {
                    self.commit_reg(instruction.d(), value);
                    Ok(())
                },
                None => Err(Fault::ArithmeticOverflow { word: instruction.0 }),
            }
        } else if funct == 0x23 {
            // SUBU
            let value = self.register(instruction.s()).wrapping_sub(
                self.register(instruction.t()),
            );
            self.commit_reg(instruction.d(), value);
            Ok(())
        } else if funct == 0x24 {
            // AND
            let value = self.register(instruction.s()) & self.register(instruction.t());
            self.commit_reg(instruction.d(), value);
            Ok(())
        } else if funct == 0x25 {
            // OR
            let value = self.register(instruction.s()) | self.register(instruction.t());
            self.commit_reg(instruction.d(), value);
            Ok(())
        } else if funct == 0x2A {
            // SLT
            let value: u32 = if signed_less_than(
                self.register(instruction.s()),
                self.register(instruction.t()),
            ) {
                1
            } else {
                0
            };
            self.commit_reg(instruction.d(), value);
            Ok(())
        } else if funct == 0x2B {
            // SLTU
            let value: u32 = if self.register(instruction.s()) < self.register(instruction.t()) {
                1
            } else {
                0
            };
            self.commit_reg(instruction.d(), value);
            Ok(())
        } else {
            Err(Fault::Unimplemented { word: instruction.0 })
        }
    }

    /// Execute a REGIMM (opcode 1) branch.
    fn execute_regimm(&mut self, instruction: Instruction) -> (r: Result<(), Fault>)
        requires
            old(self).wf(),
        ensures
            final(self).wf(),
            match spec_execute_regimm(old(self)@, instruction.0) {
                Ok(v) => r == Ok::<(), Fault>(()) && final(self)@ == v,
                Err(f) => r == Err::<(), Fault>(f) && final(self)@.mmu == old(self)@.mmu,
            },
    {
        let sub = instruction.t();
        if sub == 0x00 {
            // BLTZ
            let taken = self.register(instruction.s()) >= 0x80000000;
            self.branch(instruction, taken);
            Ok(())
        } else if sub == 0x01 {
            // BGEZ
            let taken = self.register(instruction.s()) < 0x80000000;
            self.branch(instruction, taken);
            Ok(())
        } else if sub == 0x10 || sub == 0x11 {
            // BLTZAL / BGEZAL
            Err(Fault::Unimplemented { word: instruction.0 })
        } else {
            Err(Fault::UnsupportedBranch { word: instruction.0 })
        }
    }

    /// Execute a COP0 (opcode 16) instruction.
    fn execute_cop0(&mut self, instruction: Instruction) -> (r: Result<(), Fault>)
        requires
            old(self).wf(),
        ensures
            final(self).wf(),
            match spec_execute_cop0(old(self)@, instruction.0) {
                Ok(v) => r == Ok::<(), Fault>(()) && final(self)@ == v,
                Err(f) => r == Err::<(), Fault>(f) && final(self)@.mmu == old(self)@.mmu,
            },
    {
        let sub = instruction.coprocessor_opcode();
        if sub == 0x00 {
            // MFC0
            let target = instruction.t();
            let cop0_reg = instruction.d();
            if cop0_reg == 3 || cop0_reg == 5 || cop0_reg == 6 || cop0_reg == 7 || cop0_reg == 9
                || cop0_reg == 11 {
                Ok(())
            } else if cop0_reg == 12 {
                let value = self.cop0.status;
                self.setup_load(target, value);
                Ok(())
            } else if cop0_reg == 13 {
                let value = self.cop0.cause;
                self.setup_load(target, value);
                Ok(())
            } else {
                Err(Fault::UnimplementedCop0Register { register: cop0_reg })
            }
        } else if sub == 0x04 {
            // MTC0
            let value = self.register(instruction.t());
            let cop0_reg = instruction.d();
            self.finish_load();
            if cop0_reg == 3 || cop0_reg == 5 || cop0_reg == 6 || cop0_reg == 7 || cop0_reg == 9
                || cop0_reg == 11 {
                Ok(())
            } else if cop0_reg == 12 {
                self.cop0.status = value;
                Ok(())
            } else if cop0_reg == 13 {
                self.cop0.cause = (self.cop0.cause & 0xFFFFFCFF) | (value & 0x300);
                Ok(())
            } else {
                Err(Fault::UnimplementedCop0Register { register: cop0_reg })
            }
        } else if sub == 0x10 {
            // RFE
            self.finish_load();
            self.cop0.status = (self.cop0.status & 0xFFFFFFC0) | ((self.cop0.status & 0x3F) >> 2);
            Ok(())
        } else {
            Err(Fault::UnimplementedCop0Opcode { opcode: sub })
        }
    }

    /// Execute SB, SH or SW.
    fn execute_store(&mut self, instruction: Instruction, size: u32) -> (r: Result<(), Fault>)
        requires
            old(self).wf(),
            size == 1 || size == 2 || size == 4,
        ensures
            final(self).wf(),
            match spec_store(old(self)@, instruction.0, size) {
                Ok(v) => r == Ok::<(), Fault>(()) && final(self)@ == v,
                Err(f) => r == Err::<(), Fault>(f) && final(self)@.mmu == old(self)@.mmu,
            },
    {
        let immediate = instruction.immediate_sign_extended();
        let address = self.register(instruction.s()).wrapping_add(immediate);
        let value = self.register(instruction.t());
        self.finish_load();
        if self.cop0.is_cache_isolated() {
            self.store_instruction_cache(address, value);
            return Ok(());
        }
        match self.mmu.write(address, size, value) {
            Ok(written) => Ok(written),
            Err(f) => Err(f),
        }
    }

    /// Execute one instruction over the already-rotated PC triple.
    fn execute(&mut self, instruction: Instruction) -> (r: Result<(), Fault>)
        requires
            old(self).wf(),
        ensures
            final(self).wf(),
            match spec_execute(old(self)@, instruction.0) {
                Ok(v) => r == Ok::<(), Fault>(()) && final(self)@ == v,
                Err(f) => r == Err::<(), Fault>(f) && final(self)@.mmu == old(self)@.mmu,
            },
    {
        let opcode = instruction.opcode();
        if opcode == 0x00 {
            self.execute_special(instruction)
        } else if opcode == 0x01 {
            self.execute_regimm(instruction)
        } else if opcode == 0x02 {
            // J
            let jump = instruction.immediate_jump();
            self.next_pc = (self.pc & 0xF0000000) | jump;
            self.finish_load();
            Ok(())
        } else if opcode == 0x03 {
            // JAL
            let return_address = self.next_pc;
            let jump = instruction.immediate_jump();
            self.next_pc = (self.pc & 0xF0000000) | jump;
            self.finish_load();
            self.set_reg(31, return_address);
            Ok(())
        } else if opcode == 0x04 {
            // BEQ
            let taken = self.register(instruction.s()) == self.register(instruction.t());
            self.branch(instruction, taken);
            Ok(())
        } else if opcode == 0x05 {
            // BNE
            let taken = self.register(instruction.s()) != self.register(instruction.t());
            self.branch(instruction, taken);
            Ok(())
        } else if opcode == 0x06 {
            // BLEZ
            let value = self.register(instruction.s());
            let taken = value == 0 || value >= 0x80000000;
            self.branch(instruction, taken);
            Ok(())
        } else if opcode == 0x07 {
            // BGTZ
            let value = self.register(instruction.s());
            let taken = value != 0 && value < 0x80000000;
            self.branch(instruction, taken);
            Ok(())
        } else if opcode == 0x08 {
            // ADDI
            let a = self.register(instruction.s());
            let b = instruction.immediate_sign_extended();
            match checked_signed_add(a, b) {
                Some(value) => {
                    self.commit_reg(instruction.t(), value);
                    Ok(())
                },
                None => Err(Fault::ArithmeticOverflow { word: instruction.0 }),
            }
        } else if opcode == 0x09 {
            // ADDIU
            let value = self.register(instruction.s()).wrapping_add(
                instruction.immediate_sign_extended(),
            );
            self.commit_reg(instruction.t(), value);
            Ok(())
        } else if opcode == 0x0A {
            // SLTI
            let value: u32 = if signed_less_than(
                self.register(instruction.s()),
                instruction.immediate_sign_extended(),
            ) {
                1
            } else {
                0
            };
            self.commit_reg(instruction.t(), value);
            Ok(())
        } else if opcode == 0x0B {
            // SLTIU
            let value: u32 = if self.register(instruction.s())
                < instruction.immediate_sign_extended() {
                1
            } else {
                0
            };
            self.commit_reg(instruction.t(), value);
            Ok(())
        } else if opcode == 0x0C {
            // ANDI
            let value = self.register(instruction.s()) & instruction.immediate();
            self.commit_reg(instruction.t(), value);
            Ok(())
        } else if opcode == 0x0D {
            // ORI
            let value = self.register(instruction.s()) | instruction.immediate();
            self.commit_reg(instruction.t(), value);
            Ok(())
        } else if opcode == 0x0F {
            // LUI
            let value = instruction.immediate() << 16;
            self.commit_reg(instruction.t(), value);
            Ok(())
        } else if opcode == 0x10 {
            self.execute_cop0(instruction)
        } else if opcode == 0x20 {
            // LB
            let immediate = instruction.immediate_sign_extended();
            let address = self.register(instruction.s()).wrapping_add(immediate);
            match self.mmu.read(address, 1) {
                Err(f) => Err(f),
                Ok(v) => {
                    let value = extend_byte_signed(v);
                    self.setup_load(instruction.t(), value);
                    Ok(())
                },
            }
        } else if opcode == 0x21 {
            // LH
            let immediate = instruction.immediate_sign_extended();
            let address = self.register(instruction.s()).wrapping_add(immediate);
            match self.mmu.read(address, 2) {
                Err(f) => Err(f),
                Ok(v) => {
                    let value = extend_half_signed(v);
                    self.setup_load(instruction.t(), value);
                    Ok(())
                },
            }
        } else if opcode == 0x23 {
            // LW
            let immediate = instruction.immediate_sign_extended();
            let address = self.register(instruction.s()).wrapping_add(immediate);
            match self.mmu.read(address, 4) {
                Err(f) => Err(f),
                Ok(v) => {
                    self.setup_load(instruction.t(), v);
                    Ok(())
                },
            }
        } else if opcode == 0x24 {
            // LBU
            let immediate = instruction.immediate_sign_extended();
            let address = self.register(instruction.s()).wrapping_add(immediate);
            match self.mmu.read(address, 1) {
                Err(f) => Err(f),
                Ok(v) => {
                    self.setup_load(instruction.t(), v);
                    Ok(())
                },
            }
        } else if opcode == 0x25 {
            // LHU
            let immediate = instruction.immediate_sign_extended();
            let address = self.register(instruction.s()).wrapping_add(immediate);
            match self.mmu.read(address, 2) {
                Err(f) => Err(f),
                Ok(v) => {
                    self.setup_load(instruction.t(), v);
                    Ok(())
                },
            }
        } else if opcode == 0x28 {
            // SB
            self.execute_store(instruction, 1)
        } else if opcode == 0x29 {
            // SH
            self.execute_store(instruction, 2)
        } else if opcode == 0x2B {
            // SW
            self.execute_store(instruction, 4)
        } else {
            Err(Fault::Unimplemented { word: instruction.0 })
        }
    }

    /// Run one instruction: fetch at `pc`, rotate the PC triple, execute,
    /// and advance the peripherals one cycle.
    pub fn step(&mut self) -> (r: Result<(), Fault>)
        requires
            old(self).wf(),
        ensures
            final(self).wf(),
            match spec_step(old(self)@) {
                Ok(v) => r == Ok::<(), Fault>(()) && final(self)@ == v,
                Err(f) => r == Err::<(), Fault>(f) && final(self)@.mmu == old(self)@.mmu,
            },
            spec_fetch(old(self)@) is Err ==> final(self)@ == old(self)@,
    {
        let instruction = match self.load_instruction() {
            Ok(i) => i,
            Err(f) => {
                return Err(f);
            },
        };
        self.current_pc = self.pc;
        self.pc = self.next_pc;
        self.next_pc = self.next_pc.wrapping_add(4);
        match self.execute(instruction) {
            Ok(done) => {
                self.mmu.step(1);
                Ok(done)
            },
            Err(f) => Err(f),
        }
    }
}

} // verus!
