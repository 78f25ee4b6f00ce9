//! Pure bit-field extraction over a 32-bit instruction word.

use vstd::prelude::*;

verus! {

/// The primary opcode, bits 26..31.
pub open spec fn spec_opcode(w: u32) -> u32 {
    w >> 26
}

/// The secondary opcode of a SPECIAL instruction, bits 0..5.
pub open spec fn spec_secondary_opcode(w: u32) -> u32 {
    w % 0x40
}

/// The coprocessor sub-opcode, bits 21..25 (the `s` field).
pub open spec fn spec_coprocessor_opcode(w: u32) -> u32 {
    spec_s(w)
}

/// The immediate, bits 0..15, zero-extended.
pub open spec fn spec_immediate(w: u32) -> u32 {
    w % 0x10000
}

/// The immediate, bits 0..15, sign-extended to 32 bits.
pub open spec fn spec_immediate_sign_extended(w: u32) -> u32 {
    let imm = w % 0x10000;
    if imm >= 0x8000 {
        (imm + 0xFFFF0000) as u32
    } else {
        imm
    }
}

/// The target register, bits 16..20.
pub open spec fn spec_t(w: u32) -> u32 {
    (w >> 16) % 32
}

/// The source register, bits 21..25.
pub open spec fn spec_s(w: u32) -> u32 {
    (w >> 21) % 32
}

/// The destination register, bits 11..15.
pub open spec fn spec_d(w: u32) -> u32 {
    (w >> 11) % 32
}

/// The shift amount, bits 6..10.
pub open spec fn spec_immediate_shift(w: u32) -> u32 {
    (w >> 6) % 32
}

/// The jump offset, bits 0..25, scaled to a byte offset.
pub open spec fn spec_immediate_jump(w: u32) -> u32 {
    ((w % 0x4000000) * 4) as u32
}

/// One 32-bit instruction word.
#[derive(Clone, Copy, Debug, PartialEq, Eq, Structural)]
pub struct Instruction(pub u32);

impl Instruction {
    /// The primary opcode, bits 26..31.
    pub fn opcode(&self) -> (r: u32)
        ensures
            r == spec_opcode(self.0),
    {
        self.0 >> 26
    }

    /// The secondary opcode of a SPECIAL instruction, bits 0..5.
    pub fn secondary_opcode(&self) -> (r: u32)
        ensures
            r == spec_secondary_opcode(self.0),
    {
        self.0 % 0x40
    }

    /// The coprocessor sub-opcode, bits 21..25.
    pub fn coprocessor_opcode(&self) -> (r: u32)
        ensures
            r == spec_coprocessor_opcode(self.0),
            r < 32,
    {
        self.s()
    }

    /// The immediate, bits 0..15, zero-extended.
    pub fn immediate(&self) -> (r: u32)
        ensures
            r == spec_immediate(self.0),
    {
        self.0 % 0x10000
    }

    /// The immediate, bits 0..15, sign-extended to 32 bits.
    pub fn immediate_sign_extended(&self) -> (r: u32)
        ensures
            r == spec_immediate_sign_extended(self.0),
    {
        let imm = self.0 % 0x10000;
        if imm >= 0x8000 {
            imm + 0xFFFF0000
        } else {
            imm
        }
    }

    /// The target register, bits 16..20.
    pub fn t(&self) -> (r: u32)
        ensures
            r == spec_t(self.0),
            r < 32,
    {
        (self.0 >> 16) % 32
    }

    /// The source register, bits 21..25.
    pub fn s(&self) -> (r: u32)
        ensures
            r == spec_s(self.0),
            r < 32,
    {
        (self.0 >> 21) % 32
    }

    /// The destination register, bits 11..15.
    pub fn d(&self) -> (r: u32)
        ensures
            r == spec_d(self.0),
            r < 32,
    {
        (self.0 >> 11) % 32
    }

    /// The shift amount, bits 6..10.
    pub fn immediate_shift(&self) -> (r: u32)
        ensures
            r == spec_immediate_shift(self.0),
            r < 32,
    {
        (self.0 >> 6) % 32
    }

    /// The jump offset, bits 0..25, scaled to a byte offset.
    pub fn immediate_jump(&self) -> (r: u32)
        ensures
            r == spec_immediate_jump(self.0),
    {
        (self.0 % 0x4000000) * 4
    }
}

} // verus!
