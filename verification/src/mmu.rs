//! The memory-management unit: the physical address map of the console and
//! the fold of the mirrored virtual segments onto it.
//!
//! The MMU owns the BIOS image, 2 MiB of RAM, the memory-control words, the
//! interrupt status/mask pair, the cache-control word and the timer block.
//! `read` and `write` first mask the address through the segment table, so
//! KUSEG, KSEG0 and KSEG1 all reach the same physical regions; reads and
//! writes of 1, 2 or 4 bytes are assembled little-endian.

use vstd::prelude::*;

use crate::fault::Fault;
use crate::timers::Timers;

verus! {

pub const RAM_START: u32 = 0x00000000;
pub const RAM_SIZE: u32 = 0x200000;
pub const RAM_END: u32 = 0x200000;

pub const EXPANSION_1_START: u32 = 0x1F000000;
pub const EXPANSION_1_END: u32 = 0x1F800000;

pub const IO_START: u32 = 0x1F801000;

pub const EXPANSION_2_START: u32 = 0x1F802000;
pub const EXPANSION_2_END: u32 = 0x1F802042;

pub const BIOS_START: u32 = 0x1FC00000;
pub const BIOS_SIZE: u32 = 0x80000;
pub const BIOS_END: u32 = 0x1FC80000;

pub const CACHE_CONTROL: u32 = 0xFFFE0130;

/// The MMU and every device-facing register it owns.
pub struct MMU {
    bios: Vec<u8>,
    ram: Vec<u8>,
    memory_control: [u32; 9],
    ram_size: u32,
    cache_control: u32,
    interrupt_status: u16,
    interrupt_mask: u16,
    timers: Timers,
}

/// The mathematical value of an `MMU`: the same state over `Seq`.
#[verifier::ext_equal]
pub ghost struct MmuView {
    pub bios: Seq<u8>,
    pub ram: Seq<u8>,
    pub memory_control: Seq<u32>,
    pub ram_size: u32,
    pub cache_control: u32,
    pub interrupt_status: u16,
    pub interrupt_mask: u16,
    pub timers: Timers,
}

impl View for MMU {
    type V = MmuView;

    closed spec fn view(&self) -> MmuView {
        MmuView {
            bios: self.bios@,
            ram: self.ram@,
            memory_control: self.memory_control@,
            ram_size: self.ram_size,
            cache_control: self.cache_control,
            interrupt_status: self.interrupt_status,
            interrupt_mask: self.interrupt_mask,
            timers: self.timers,
        }
    }
}

/// The mask that folds an address's segment onto physical space: KSEG0
/// (top bits 100) drops bit 31, KSEG1 (top bits 101) drops bits 29..31,
/// KUSEG and KSEG2 pass through.
pub open spec fn spec_segment_mask(address: u32) -> u32 {
    if address >> 29 == 4 {
        0x7FFFFFFF
    } else if address >> 29 == 5 {
        0x1FFFFFFF
    } else {
        0xFFFFFFFF
    }
}

/// An address folded onto physical space.
pub open spec fn spec_masked(address: u32) -> u32 {
    address & spec_segment_mask(address)
}

/// A 1-, 2- or 4-byte little-endian value read out of `bytes` at `offset`.
pub open spec fn read_le(bytes: Seq<u8>, offset: int, size: int) -> u32
    recommends
        size == 1 || size == 2 || size == 4,
        0 <= offset,
        offset + size <= bytes.len(),
{
    if size == 1 {
        bytes[offset] as u32
    } else if size == 2 {
        (bytes[offset] as u32) | (bytes[offset + 1] as u32) << 8
    } else {
        (bytes[offset] as u32) | (bytes[offset + 1] as u32) << 8 | (bytes[offset + 2] as u32)
            << 16 | (bytes[offset + 3] as u32) << 24
    }
}

/// `bytes` after a 1-, 2- or 4-byte little-endian store of `value` at
/// `offset`.
pub open spec fn write_le(bytes: Seq<u8>, offset: int, size: int, value: u32) -> Seq<u8>
    recommends
        size == 1 || size == 2 || size == 4,
        0 <= offset,
        offset + size <= bytes.len(),
{
    if size == 1 {
        bytes.update(offset, (value & 0xFF) as u8)
    } else if size == 2 {
        bytes.update(offset, (value & 0xFF) as u8).update(offset + 1, ((value >> 8) & 0xFF) as u8)
    } else {
        bytes.update(offset, (value & 0xFF) as u8).update(offset + 1, ((value >> 8) & 0xFF) as u8)
            .update(offset + 2, ((value >> 16) & 0xFF) as u8).update(
            offset + 3,
            ((value >> 24) & 0xFF) as u8,
        )
    }
}

impl MmuView {
    /// Structural facts every reachable MMU state satisfies.
    pub open spec fn wf(self) -> bool {
        &&& self.ram.len() == RAM_SIZE
        &&& self.bios.len() <= BIOS_SIZE
        &&& self.memory_control.len() == 9
    }

    /// The state at power-on: the given BIOS image, RAM zeroed, every
    /// register zero.
    pub open spec fn reset(bios: Seq<u8>) -> MmuView {
        MmuView {
            bios: bios,
            ram: Seq::new(RAM_SIZE as nat, |i: int| 0u8),
            memory_control: Seq::new(9, |i: int| 0u32),
            ram_size: 0,
            cache_control: 0,
            interrupt_status: 0,
            interrupt_mask: 0,
            timers: Timers::reset(),
        }
    }

    /// Whether the instruction cache is enabled (cache-control bit 11).
    pub open spec fn cache_enabled(self) -> bool {
        self.cache_control & 0x800 != 0
    }

    /// Whether isolated stores overwrite cache tags rather than cache data
    /// (cache-control bit 2).
    pub open spec fn cache_tag_test(self) -> bool {
        self.cache_control & 4 != 0
    }

    /// The value a read of `size` bytes at `address` returns, or the fault
    /// it raises.
    ///
    /// The address is first folded onto physical space. Halfword and word
    /// reads of the I/O page see the interrupt registers, the DMA and SPU
    /// stubs (all-zero) and the timers (fatal); any read of RAM or BIOS
    /// assembles bytes little-endian; a read of expansion region 1 sees
    /// the floating bus, all ones. Everything else is fatal.
    pub open spec fn spec_read(self, address: u32, size: u32) -> Result<u32, Fault> {
        let a = spec_masked(address);
        if size > 1 && a == 0x1F801070 {
            Ok(self.interrupt_status as u32)
        } else if size > 1 && a == 0x1F801074 {
            Ok(self.interrupt_mask as u32)
        } else if size > 1 && 0x1F801080 <= a && a < 0x1F801100 {
            Ok(0)
        } else if size > 1 && 0x1F801C00 <= a && a < 0x1F801E80 {
            Ok(0)
        } else if size > 1 && 0x1F801100 <= a && a < 0x1F80112F {
            Err(Fault::TimerRead { offset: (a - 0x1F801100) as u32 })
        } else if a + size <= RAM_END {
            Ok(read_le(self.ram, a as int, size as int))
        } else if BIOS_START <= a && a + size <= BIOS_START + self.bios.len() {
            Ok(read_le(self.bios, a - BIOS_START, size as int))
        } else if EXPANSION_1_START <= a && a < EXPANSION_1_END {
            Ok(0xFFFFFFFF)
        } else {
            Err(Fault::UnmappedRead { address: a })
        }
    }

    /// The state after a write of `size` bytes of `value` at `address`, or
    /// the fault the write raises.
    ///
    /// RAM stores the low `size` bytes little-endian. An I/O write stores
    /// the whole word whatever `size` says, except the interrupt registers,
    /// which keep 16 bits. Writes to the DMA stub, the SPU stub and
    /// expansion region 2 are ignored; writes to expansion region 1 and the
    /// BIOS ROM are fatal, as is everything unmapped.
    pub open spec fn spec_write(self, address: u32, size: u32, value: u32) -> Result<
        MmuView,
        Fault,
    > {
        let a = spec_masked(address);
        if a + size <= RAM_END {
            Ok(MmuView { ram: write_le(self.ram, a as int, size as int, value), ..self })
        } else if EXPANSION_1_START <= a && a < EXPANSION_1_END {
            Err(Fault::ReadOnlyWrite { address: a })
        } else if 0x1F801000 <= a && a <= 0x1F801020 {
            Ok(
                MmuView {
                    memory_control: self.memory_control.update(
                        (((a - 0x1F801000) as u32) / 4) as int,
                        value,
                    ),
                    ..self
                },
            )
        } else if a == 0x1F801060 {
            Ok(MmuView { ram_size: value, ..self })
        } else if a == 0x1F801070 {
            Ok(MmuView { interrupt_status: (value & 0xFFFF) as u16, ..self })
        } else if a == 0x1F801074 {
            Ok(MmuView { interrupt_mask: (value & 0xFFFF) as u16, ..self })
        } else if 0x1F801080 <= a && a < 0x1F801100 {
            Ok(self)
        } else if 0x1F801100 <= a && a < 0x1F80112F {
            match self.timers.spec_write((a - 0x1F801100) as u32, value) {
                Ok(t) => Ok(MmuView { timers: t, ..self }),
                Err(f) => Err(f),
            }
        } else if 0x1F801C00 <= a && a < 0x1F801E80 {
            Ok(self)
        } else if EXPANSION_2_START <= a && a < EXPANSION_2_END {
            Ok(self)
        } else if a == CACHE_CONTROL {
            Ok(MmuView { cache_control: value, ..self })
        } else if BIOS_START <= a && a < BIOS_END {
            Err(Fault::ReadOnlyWrite { address: a })
        } else {
            Err(Fault::UnmappedWrite { address: a })
        }
    }
}

/// Fold `address` onto physical space through the segment mask table.
pub fn mask_segment(address: u32) -> (r: u32)
    ensures
        r == spec_masked(address),
{
    let segment = address >> 29;
    let mask: u32 = if segment == 4 {
        0x7FFFFFFF
    } else if segment == 5 {
        0x1FFFFFFF
    } else {
        0xFFFFFFFF
    };
    address & mask
}

impl MMU {
    /// Structural facts every reachable MMU satisfies.
    pub open spec fn wf(self) -> bool {
        self@.wf()
    }

    /// An MMU at power-on, holding the given BIOS image (at most 512 KiB).
    pub fn new(bios: Vec<u8>) -> (r: MMU)
        requires
            bios@.len() <= BIOS_SIZE,
        ensures
            r.wf(),
            r@ == MmuView::reset(bios@),
    {
        let mut ram: Vec<u8> = Vec::new();
        while ram.len() < RAM_SIZE as usize
            invariant
                ram@.len() <= RAM_SIZE,
                forall|i: int| 0 <= i < ram@.len() ==> ram@[i] == 0u8,
            decreases RAM_SIZE as int - ram@.len(),
        {
            ram.push(0);
        }
        let mmu = MMU {
            bios,
            ram,
            memory_control: [0; 9],
            ram_size: 0,
            cache_control: 0,
            interrupt_status: 0,
            interrupt_mask: 0,
            timers: Timers::new(),
        };
        proof {
            assert(mmu@.ram =~= Seq::new(RAM_SIZE as nat, |i: int| 0u8));
            assert(mmu@.memory_control =~= Seq::new(9, |i: int| 0u32));
            assert(mmu@ =~= MmuView::reset(mmu@.bios));
        }
        mmu
    }

    /// Advance the peripherals by `cycles` CPU cycles. Only the timer stub
    /// is stepped, so the state is unchanged.
    pub fn step(&mut self, cycles: u32)
        ensures
            final(self)@ == old(self)@,
    {
        self.timers.step(cycles);
    }

    /// Whether the instruction cache is enabled (cache-control bit 11).
    pub fn is_instruction_cache_enabled(&self) -> (r: bool)
        ensures
            r == self@.cache_enabled(),
    {
        self.cache_control & 0x800 != 0
    }

    /// Whether isolated stores overwrite cache tags rather than cache data
    /// (cache-control bit 2).
    pub fn is_instruction_cache_tag_test_mode(&self) -> (r: bool)
        ensures
            r == self@.cache_tag_test(),
    {
        self.cache_control & 4 != 0
    }

    /// Read `size` bytes (1, 2 or 4) at `address`, little-endian.
    pub fn read(&self, address: u32, size: u32) -> (r: Result<u32, Fault>)
        requires
            self.wf(),
            size == 1 || size == 2 || size == 4,
        ensures
            r == self@.spec_read(address, size),
    {
        let a = mask_segment(address);
        if size > 1 {
            if a == 0x1F801070 {
                return Ok(self.interrupt_status as u32);
            }
            if a == 0x1F801074 {
                return Ok(self.interrupt_mask as u32);
            }
            if a >= 0x1F801080 && a < 0x1F801100 {
                return Ok(0);
            }
            if a >= 0x1F801C00 && a < 0x1F801E80 {
                return Ok(0);
            }
            if a >= 0x1F801100 && a < 0x1F80112F {
                return self.timers.read(a - 0x1F801100);
            }
        }
        if a < RAM_END && size <= RAM_END - a {
            let i = a as usize;
            if size == 1 {
                return Ok(self.ram[i] as u32);
            } else if size == 2 {
                return Ok((self.ram[i] as u32) | (self.ram[i + 1] as u32) << 8);
            } else {
                return Ok(
                    (self.ram[i] as u32) | (self.ram[i + 1] as u32) << 8 | (self.ram[i + 2] as u32)
                        << 16 | (self.ram[i + 3] as u32) << 24,
                );
            }
        }
        if a >= BIOS_START && a < BIOS_END {
            let offset = (a - BIOS_START) as usize;
            if offset + (size as usize) <= self.bios.len() {
                if size == 1 {
                    return Ok(self.bios[offset] as u32);
                } else if size == 2 {
                    return Ok((self.bios[offset] as u32) | (self.bios[offset + 1] as u32) << 8);
                } else {
                    return Ok(
                        (self.bios[offset] as u32) | (self.bios[offset + 1] as u32) << 8 | (
                        self.bios[offset + 2] as u32) << 16 | (self.bios[offset + 3] as u32) << 24,
                    );
                }
            }
            return Err(Fault::UnmappedRead { address: a });
        }
        if a >= EXPANSION_1_START && a < EXPANSION_1_END {
            return Ok(0xFFFFFFFF);
        }
        Err(Fault::UnmappedRead { address: a })
    }

    /// Write the low `size` bytes (1, 2 or 4) of `value` at `address`,
    /// little-endian.
    pub fn write(&mut self, address: u32, size: u32, value: u32) -> (r: Result<(), Fault>)
        requires
            old(self).wf(),
            size == 1 || size == 2 || size == 4,
        ensures
            final(self).wf(),
            match old(self)@.spec_write(address, size, value) {
                Ok(m) => r == Ok::<(), Fault>(()) && final(self)@ == m,
                Err(f) => r == Err::<(), Fault>(f) && final(self)@ == old(self)@,
            },
    {
        let a = mask_segment(address);
        if a < RAM_END && size <= RAM_END - a {
            let i = a as usize;
            self.ram.set(i, (value & 0xFF) as u8);
            if size >= 2 {
                self.ram.set(i + 1, ((value >> 8) & 0xFF) as u8);
            }
            if size == 4 {
                self.ram.set(i + 2, ((value >> 16) & 0xFF) as u8);
                self.ram.set(i + 3, ((value >> 24) & 0xFF) as u8);
            }
            return Ok(());
        }
        if a >= EXPANSION_1_START && a < EXPANSION_1_END {
            return Err(Fault::ReadOnlyWrite { address: a });
        }
        if a >= 0x1F801000 && a <= 0x1F801020 {
            let index = ((a - 0x1F801000) / 4) as usize;
            self.memory_control[index] = value;
            return Ok(());
        }
        if a == 0x1F801060 {
            self.ram_size = value;
            return Ok(());
        }
        if a == 0x1F801070 {
            self.interrupt_status = (value & 0xFFFF) as u16;
            return Ok(());
        }
        if a == 0x1F801074 {
            self.interrupt_mask = (value & 0xFFFF) as u16;
            return Ok(());
        }
        if a >= 0x1F801080 && a < 0x1F801100 {
            return Ok(());
        }
        if a >= 0x1F801100 && a < 0x1F80112F {
            return self.timers.write(a - 0x1F801100, value);
        }
        if a >= 0x1F801C00 && a < 0x1F801E80 {
            return Ok(());
        }
        if a >= EXPANSION_2_START && a < EXPANSION_2_END {
            return Ok(());
        }
        if a == CACHE_CONTROL {
            self.cache_control = value;
            return Ok(());
        }
        if a >= BIOS_START && a < BIOS_END {
            return Err(Fault::ReadOnlyWrite { address: a });
        }
        Err(Fault::UnmappedWrite { address: a })
    }
}

} // verus!
