//! Fatal conditions of the emulator core.
//!
//! The core has no local recovery: every fault propagates to the driver,
//! which terminates. Each variant carries the offending encoding or address.

use vstd::prelude::*;

verus! {

/// A fatal condition raised by the CPU core or the MMU.
#[derive(Clone, Copy, Debug, PartialEq, Eq, Structural)]
pub enum Fault {
    /// An opcode outside the supported table, carrying the whole
    /// instruction word.
    Unimplemented { word: u32 },
    /// A branch sub-opcode (field `t` of a REGIMM instruction) outside the
    /// supported table.
    UnsupportedBranch { word: u32 },
    /// A coprocessor-0 register that MFC0/MTC0 does not handle.
    UnimplementedCop0Register { register: u32 },
    /// A coprocessor-0 sub-opcode (field `s`) outside MFC0/MTC0/RFE.
    UnimplementedCop0Opcode { opcode: u32 },
    /// Signed overflow in ADD, ADDI or SUB.
    ArithmeticOverflow { word: u32 },
    /// A zero denominator handed to DIV or DIVU.
    DivisionByZero { word: u32 },
    /// The one signed-division case that overflows: `i32::MIN / -1`.
    DivisionOverflow { word: u32 },
    /// A read from a physical address outside every mapped region.
    UnmappedRead { address: u32 },
    /// A write to a physical address outside every writable region.
    UnmappedWrite { address: u32 },
    /// A write aimed at the BIOS ROM or the expansion region.
    ReadOnlyWrite { address: u32 },
    /// A read of the timer registers, which are write-only stubs here.
    TimerRead { offset: u32 },
    /// A write to a timer register other than a counter or a target.
    TimerWrite { offset: u32 },
}

} // verus!
