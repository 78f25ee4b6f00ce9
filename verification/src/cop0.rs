//! Coprocessor 0: the system-control registers.
//!
//! Only `status`, `cause` and `epc` are held. Status bit 16 isolates the
//! instruction cache; the low six status bits form the 3-deep two-bit
//! interrupt/kernel mode stack that RFE pops.

use vstd::prelude::*;

verus! {

/// The system-control coprocessor.
#[derive(Clone, Copy, Debug, PartialEq, Eq, Structural)]
pub struct Coprocessor {
    pub status: u32,
    pub cause: u32,
    pub epc: u32,
}

impl Coprocessor {
    /// The registers at reset: all zero.
    pub open spec fn reset() -> Coprocessor {
        Coprocessor { status: 0, cause: 0, epc: 0 }
    }

    /// Whether stores are diverted into the instruction cache
    /// (status bit 16).
    pub open spec fn spec_cache_isolated(self) -> bool {
        self.status & 0x10000 != 0
    }

    /// The registers after an MTC0 to `cause`: only bits 8..9 are
    /// writable.
    pub open spec fn with_cause_write(self, value: u32) -> Coprocessor {
        Coprocessor { cause: (self.cause & 0xFFFFFCFF) | (value & 0x300), ..self }
    }

    /// The registers after RFE: the low six status bits (the mode stack)
    /// shift right by one two-bit entry, the upper bits are preserved.
    pub open spec fn after_rfe(self) -> Coprocessor {
        Coprocessor { status: (self.status & 0xFFFFFFC0) | ((self.status & 0x3F) >> 2), ..self }
    }

    /// A coprocessor at reset.
    pub fn new() -> (r: Coprocessor)
        ensures
            r == Coprocessor::reset(),
    {
        Coprocessor { status: 0, cause: 0, epc: 0 }
    }

    /// Whether stores are diverted into the instruction cache
    /// (status bit 16).
    pub fn is_cache_isolated(&self) -> (r: bool)
        ensures
            r == self.spec_cache_isolated(),
    {
        self.status & 0x10000 != 0
    }
}

} // verus!
