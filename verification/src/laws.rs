//! The pipeline-visible guarantees of the core, proved once and for all
//! over the transition functions: R0 constancy, sequential PC advance,
//! the load-delay and branch-delay slots, segment mirroring, little-endian
//! round trips, and instruction-cache hit stability.

use vstd::prelude::*;

use crate::arith::wrap_add;
use crate::cache::InstructionCacheLine;
use crate::cache::spec_cache_tag;
use crate::cache::spec_line_index;
use crate::cache::spec_word_index;
use crate::cpu::CpuView;
use crate::cpu::set_reg;
use crate::cpu::spec_execute;
use crate::cpu::spec_fetch;
use crate::cpu::spec_step;
use crate::cpu::spec_store_icache;
use crate::fault::Fault;
use crate::instruction::spec_immediate_sign_extended;
use crate::instruction::spec_d;
use crate::instruction::spec_opcode;
use crate::instruction::spec_s;
use crate::instruction::spec_secondary_opcode;
use crate::instruction::spec_t;
use crate::mmu::MmuView;
use crate::mmu::RAM_END;

verus! {

/// Law: no write to the register file disturbs R0. Whatever register a
/// result is aimed at, R0 still reads 0 afterwards.
pub proof fn lemma_r0_reads_zero(registers: Seq<u32>, r: u32, v: u32)
    requires
        registers.len() == 32,
        registers[0] == 0,
        r < 32,
    ensures
        set_reg(registers, r, v)[0] == 0,
{
}

/// Law (machine closure): executing any instruction over a well-formed
/// state yields a well-formed state — in particular R0 still reads 0 and
/// the memories keep their sizes.
pub proof fn lemma_execute_preserves_wf(s: CpuView, w: u32, v: CpuView)
    requires
        s.wf(),
        spec_execute(s, w) == Ok::<CpuView, Fault>(v),
    ensures
        v.wf(),
{
}

/// Law (machine closure): a whole step over a well-formed state yields a
/// well-formed state.
pub proof fn lemma_step_preserves_wf(s: CpuView, v: CpuView)
    requires
        s.wf(),
        spec_step(s) == Ok::<CpuView, Fault>(v),
    ensures
        v.wf(),
{
    let fetched = spec_fetch(s)->Ok_0;
    let rotated = CpuView {
        current_pc: s.pc,
        pc: s.next_pc,
        next_pc: wrap_add(s.next_pc, 4),
        icache: fetched.1,
        ..s
    };
    assert(rotated.wf());
    lemma_execute_preserves_wf(rotated, fetched.0, v);
}

/// Whether an instruction word can overwrite `next_pc`: the jumps, the
/// branches of the main opcode space, and the REGIMM branches.
pub open spec fn touches_next_pc(w: u32) -> bool {
    let op = spec_opcode(w);
    ||| op == 0x00 && (spec_secondary_opcode(w) == 0x08 || spec_secondary_opcode(w) == 0x09)
    ||| op == 0x01
    ||| op == 0x02
    ||| op == 0x03
    ||| op == 0x04
    ||| op == 0x05
    ||| op == 0x06
    ||| op == 0x07
}

/// Law: an instruction that cannot touch `next_pc` leaves it alone.
pub proof fn lemma_execute_keeps_next_pc(s: CpuView, w: u32, v: CpuView)
    requires
        !touches_next_pc(w),
        spec_execute(s, w) == Ok::<CpuView, Fault>(v),
    ensures
        v.next_pc == s.next_pc,
{
}

/// Law: in sequential flow (no branch pending, so `next_pc` trails `pc`
/// by one word), a step that executes a non-branch advances the PC triple
/// by exactly one word: afterwards `next_pc == current_pc + 8`.
pub proof fn lemma_sequential_pc_advance(
    s: CpuView,
    w: u32,
    cache: Seq<InstructionCacheLine>,
    v: CpuView,
)
    requires
        s.next_pc == wrap_add(s.pc, 4),
        spec_fetch(s) == Ok::<(u32, Seq<InstructionCacheLine>), Fault>((w, cache)),
        !touches_next_pc(w),
        spec_step(s) == Ok::<CpuView, Fault>(v),
    ensures
        v.next_pc == wrap_add(v.current_pc, 8),
{
    let rotated = CpuView {
        current_pc: s.pc,
        pc: s.next_pc,
        next_pc: wrap_add(s.next_pc, 4),
        icache: cache,
        ..s
    };
    lemma_execute_keeps_next_pc(rotated, w, v);
    assert(v.current_pc == s.pc);
    assert(v.next_pc == wrap_add(wrap_add(s.pc, 4), 4));
}

/// Law (load delay): with a load of register `Rt` still pending, an
/// `ADDU Rx, Rt, R0` reads the stale value of `Rt` — the one from before
/// the load — while the load retires into `Rt` in the same instant. The
/// instruction after the delay slot therefore sees the loaded value.
pub proof fn lemma_load_delay(s: CpuView, w: u32, v: CpuView)
    requires
        s.wf(),
        s.next_load.0 != 0,
        spec_opcode(w) == 0x00,
        spec_secondary_opcode(w) == 0x21,
        spec_s(w) == s.next_load.0,
        spec_t(w) == 0,
        spec_execute(s, w) == Ok::<CpuView, Fault>(v),
    ensures
        spec_d(w) != 0 ==> v.reg(spec_d(w)) == s.reg(s.next_load.0),
        spec_d(w) != s.next_load.0 ==> v.reg(s.next_load.0) == s.next_load.1,
{
    assert(wrap_add(s.reg(spec_s(w)), 0) == s.reg(spec_s(w)));
}

/// Law (branch delay): a step that executes a taken BEQ leaves `pc` at
/// the old `next_pc` — so the delay-slot instruction is fetched, exactly
/// once, by the very next step — and aims `next_pc` at the branch target,
/// the delay-slot address plus the scaled immediate.
pub proof fn lemma_branch_delay(
    s: CpuView,
    w: u32,
    cache: Seq<InstructionCacheLine>,
    v: CpuView,
)
    requires
        spec_fetch(s) == Ok::<(u32, Seq<InstructionCacheLine>), Fault>((w, cache)),
        spec_opcode(w) == 0x04,
        s.reg(spec_s(w)) == s.reg(spec_t(w)),
        spec_step(s) == Ok::<CpuView, Fault>(v),
    ensures
        v.pc == s.next_pc,
        v.next_pc == wrap_add(s.next_pc, spec_immediate_sign_extended(w) << 2),
{
}

/// Law: no instruction writes `pc` or `current_pc` directly; only the
/// rotation at the head of a step moves them.
pub proof fn lemma_execute_keeps_issued_pcs(s: CpuView, w: u32, v: CpuView)
    requires
        spec_execute(s, w) == Ok::<CpuView, Fault>(v),
    ensures
        v.pc == s.pc,
        v.current_pc == s.current_pc,
{
}

/// Law (branch delay, two steps): after a taken BEQ, the very next step
/// issues the delay-slot instruction — the one at the old `next_pc` —
/// exactly once, and leaves the fetch aimed at the branch target.
pub proof fn lemma_branch_delay_slot_runs_once(
    s: CpuView,
    w: u32,
    cache: Seq<InstructionCacheLine>,
    v1: CpuView,
    v2: CpuView,
)
    requires
        spec_fetch(s) == Ok::<(u32, Seq<InstructionCacheLine>), Fault>((w, cache)),
        spec_opcode(w) == 0x04,
        s.reg(spec_s(w)) == s.reg(spec_t(w)),
        spec_step(s) == Ok::<CpuView, Fault>(v1),
        spec_step(v1) == Ok::<CpuView, Fault>(v2),
    ensures
        v2.current_pc == s.next_pc,
        v2.pc == wrap_add(s.next_pc, spec_immediate_sign_extended(w) << 2),
{
    lemma_branch_delay(s, w, cache, v1);
    let fetched = spec_fetch(v1)->Ok_0;
    let rotated = CpuView {
        current_pc: v1.pc,
        pc: v1.next_pc,
        next_pc: wrap_add(v1.next_pc, 4),
        icache: fetched.1,
        ..v1
    };
    lemma_execute_keeps_issued_pcs(rotated, fetched.0, v2);
}

/// Law (segment mirroring): below 0x20000000 the three segments KUSEG,
/// KSEG0 and KSEG1 read the same physical bytes: a read at `address`
/// agrees with reads at `address | 0x80000000` and `address | 0xA0000000`.
pub proof fn lemma_segment_mirroring(m: MmuView, address: u32, size: u32)
    requires
        address < 0x20000000,
    ensures
        m.spec_read(address, size) == m.spec_read(address | 0x80000000, size),
        m.spec_read(address, size) == m.spec_read(address | 0xA0000000, size),
{
    assert((address & 0xFFFFFFFF) == address && (address >> 29) < 4 && ((address | 0x80000000)
        >> 29) == 4 && (((address | 0x80000000) & 0x7FFFFFFF) == address) && ((address
        | 0xA0000000) >> 29) == 5 && (((address | 0xA0000000) & 0x1FFFFFFF) == address))
        by (bit_vector)
        requires
            address < 0x20000000,
    ;
}

/// Law (endian round trip): four byte writes at `a`, `a+1`, `a+2`, `a+3`
/// in RAM, read back as one word at `a`, reassemble little-endian:
/// `b0 | b1 << 8 | b2 << 16 | b3 << 24`.
pub proof fn lemma_endian_round_trip(m: MmuView, a: u32, b0: u32, b1: u32, b2: u32, b3: u32)
    requires
        m.wf(),
        a + 4 <= RAM_END,
        b0 < 0x100,
        b1 < 0x100,
        b2 < 0x100,
        b3 < 0x100,
    ensures
        ({
            let m1 = m.spec_write(a, 1, b0);
            &&& m1 is Ok
            &&& {
                let m2 = m1->Ok_0.spec_write((a + 1) as u32, 1, b1);
                &&& m2 is Ok
                &&& {
                    let m3 = m2->Ok_0.spec_write((a + 2) as u32, 1, b2);
                    &&& m3 is Ok
                    &&& {
                        let m4 = m3->Ok_0.spec_write((a + 3) as u32, 1, b3);
                        &&& m4 is Ok
                        &&& m4->Ok_0.spec_read(a, 4) == Ok::<u32, Fault>(
                            b0 | (b1 << 8) | (b2 << 16) | (b3 << 24),
                        )
                    }
                }
            }
        }),
{
    let a1: u32 = (a + 1) as u32;
    let a2: u32 = (a + 2) as u32;
    let a3: u32 = (a + 3) as u32;
    assert((a & 0xFFFFFFFF) == a && (a >> 29) == 0 && (a1 & 0xFFFFFFFF) == a1 && (a1 >> 29) == 0
        && (a2 & 0xFFFFFFFF) == a2 && (a2 >> 29) == 0 && (a3 & 0xFFFFFFFF) == a3 && (a3 >> 29)
        == 0) by (bit_vector)
        requires
            a < 0x200000,
            a1 < 0x200000,
            a2 < 0x200000,
            a3 < 0x200000,
    ;
    assert((b0 & 0xFF) == b0 && (b1 & 0xFF) == b1 && (b2 & 0xFF) == b2 && (b3 & 0xFF) == b3)
        by (bit_vector)
        requires
            b0 < 0x100,
            b1 < 0x100,
            b2 < 0x100,
            b3 < 0x100,
    ;
}

/// Law (cache hit stability): when the cache is enabled, `pc` lies in a
/// cached segment, and the selected line is usable for `pc`, a fetch
/// returns the cached word and changes nothing — in particular it never
/// consults memory, so the same word comes back however RAM or the BIOS
/// bytes underneath have changed, until the line is invalidated.
pub proof fn lemma_cache_hit_stable(s: CpuView)
    requires
        s.wf(),
        s.mmu.cache_enabled(),
        s.pc < 0xA0000000,
        s.icache[spec_line_index(s.pc)].usable(spec_cache_tag(s.pc), spec_word_index(s.pc)),
    ensures
        spec_fetch(s) == Ok::<(u32, Seq<InstructionCacheLine>), Fault>(
            (s.icache[spec_line_index(s.pc)].word(spec_word_index(s.pc)), s.icache),
        ),
{
}

/// Law (cache hits ignore memory): two states that agree on the cache and
/// on `pc`, both hitting, fetch the same word — whatever their memories
/// hold.
pub proof fn lemma_cache_hit_ignores_memory(s1: CpuView, s2: CpuView)
    requires
        s1.wf(),
        s2.wf(),
        s1.mmu.cache_enabled(),
        s2.mmu.cache_enabled(),
        s1.pc == s2.pc,
        s1.icache == s2.icache,
        s1.pc < 0xA0000000,
        s1.icache[spec_line_index(s1.pc)].usable(spec_cache_tag(s1.pc), spec_word_index(s1.pc)),
    ensures
        spec_fetch(s1) is Ok,
        spec_fetch(s2) is Ok,
        spec_fetch(s1)->Ok_0.0 == spec_fetch(s2)->Ok_0.0,
{
    lemma_cache_hit_stable(s1);
    lemma_cache_hit_stable(s2);
}

/// Law (isolated stores invalidate): a cache-isolated store wholly
/// invalidates the line it hits (`valid` becomes 4), so every later fetch
/// through that line misses and refills from memory.
pub proof fn lemma_isolated_store_invalidates(
    icache: Seq<InstructionCacheLine>,
    tag_test: bool,
    address: u32,
    value: u32,
    pc: u32,
)
    requires
        icache.len() == 256,
        spec_line_index(pc) == spec_line_index(address),
    ensures
        spec_store_icache(icache, tag_test, address, value)[spec_line_index(pc)].valid == 4,
        spec_store_icache(icache, tag_test, address, value)[spec_line_index(pc)].valid
            > spec_word_index(pc),
{
}

} // verus!

