//! The three 16-bit counter units, advanced by CPU cycles.
//!
//! The units are stubs: `step` leaves every counter alone, reads are fatal,
//! and writes land only on a counter or a target register. Real timer
//! semantics (sync modes, IRQ delivery, clock sources) are deliberately
//! left out of this core.

use vstd::prelude::*;

use crate::fault::Fault;

verus! {

/// One 16-bit counter unit.
#[derive(Clone, Copy, Debug, PartialEq, Eq, Structural)]
pub struct Timer {
    pub sync_enabled: bool,
    pub counter: u16,
    pub target: u16,
    pub use_system_clock: bool,
}

impl Timer {
    /// A unit at reset: counter and target zero, driven by the system clock.
    pub fn new() -> (r: Timer)
        ensures
            r == Timer::reset(),
    {
        Timer { sync_enabled: false, counter: 0, target: 0, use_system_clock: true }
    }

    /// The reset value of a unit.
    pub open spec fn reset() -> Timer {
        Timer { sync_enabled: false, counter: 0, target: 0, use_system_clock: true }
    }

    /// Advance the unit by `cycles` CPU cycles. Counting is stubbed out,
    /// so the unit is left unchanged.
    pub fn step(&mut self, cycles: u32)
        ensures
            *final(self) == *old(self),
    {
        let _ = cycles;
    }

    /// The counter value after a write of `value` (truncated to 16 bits).
    pub open spec fn with_counter(self, value: u32) -> Timer {
        Timer { counter: (value & 0xFFFF) as u16, ..self }
    }

    /// The target value after a write of `value` (truncated to 16 bits).
    pub open spec fn with_target(self, value: u32) -> Timer {
        Timer { target: (value & 0xFFFF) as u16, ..self }
    }
}

/// The timer block: three counter units, 16 bytes of registers each.
#[derive(Clone, Copy, Debug, PartialEq, Eq, Structural)]
pub struct Timers {
    pub unit0: Timer,
    pub unit1: Timer,
    pub unit2: Timer,
}

impl Timers {
    /// The block at reset.
    pub open spec fn reset() -> Timers {
        Timers { unit0: Timer::reset(), unit1: Timer::reset(), unit2: Timer::reset() }
    }

    /// The block after a write of `value` at byte offset `offset` from the
    /// start of the timer registers, or the fault the write raises.
    ///
    /// Offset bits 4..5 select the unit; within a unit, offset 0 is the
    /// counter and offset 8 the target. Everything else is fatal, the mode
    /// registers included, because their semantics are not modelled.
    pub open spec fn spec_write(self, offset: u32, value: u32) -> Result<Timers, Fault> {
        if offset >= 0x30 {
            Err(Fault::TimerWrite { offset })
        } else {
            let unit = offset >> 4;
            let reg = offset & 0xF;
            if reg == 0 {
                if unit == 0 {
                    Ok(Timers { unit0: self.unit0.with_counter(value), ..self })
                } else if unit == 1 {
                    Ok(Timers { unit1: self.unit1.with_counter(value), ..self })
                } else {
                    Ok(Timers { unit2: self.unit2.with_counter(value), ..self })
                }
            } else if reg == 8 {
                if unit == 0 {
                    Ok(Timers { unit0: self.unit0.with_target(value), ..self })
                } else if unit == 1 {
                    Ok(Timers { unit1: self.unit1.with_target(value), ..self })
                } else {
                    Ok(Timers { unit2: self.unit2.with_target(value), ..self })
                }
            } else {
                Err(Fault::TimerWrite { offset })
            }
        }
    }

    /// A fresh timer block, all units at reset.
    pub fn new() -> (r: Timers)
        ensures
            r == Timers::reset(),
    {
        Timers { unit0: Timer::new(), unit1: Timer::new(), unit2: Timer::new() }
    }

    /// Advance every unit by `cycles` CPU cycles. Counting is stubbed out,
    /// so the block is left unchanged.
    pub fn step(&mut self, cycles: u32)
        ensures
            *final(self) == *old(self),
    {
        self.unit0.step(cycles);
        self.unit1.step(cycles);
        self.unit2.step(cycles);
    }

    /// Read the register at byte offset `offset`. Always fatal: the stub
    /// has no readable state.
    pub fn read(&self, offset: u32) -> (r: Result<u32, Fault>)
        ensures
            r == Err::<u32, Fault>(Fault::TimerRead { offset }),
    {
        Err(Fault::TimerRead { offset })
    }

    /// Write `value` to the register at byte offset `offset`, accepting
    /// only a counter (offset 0 mod 16) or a target (offset 8 mod 16).
    pub fn write(&mut self, offset: u32, value: u32) -> (r: Result<(), Fault>)
        ensures
            match old(self).spec_write(offset, value) {
                Ok(t) => r == Ok::<(), Fault>(()) && *final(self) == t,
                Err(f) => r == Err::<(), Fault>(f) && *final(self) == *old(self),
            },
    {
        if offset >= 0x30 {
            return Err(Fault::TimerWrite { offset });
        }
        let unit = offset >> 4;
        let reg = offset & 0xF;
        if reg != 0 && reg != 8 {
            return Err(Fault::TimerWrite { offset });
        }
        let truncated = (value & 0xFFFF) as u16;
        if reg == 0 {
            if unit == 0 {
                self.unit0.counter = truncated;
            } else if unit == 1 {
                self.unit1.counter = truncated;
            } else {
                self.unit2.counter = truncated;
            }
        } else {
            if unit == 0 {
                self.unit0.target = truncated;
            } else if unit == 1 {
                self.unit1.target = truncated;
            } else {
                self.unit2.target = truncated;
            }
        }
        Ok(())
    }
}

} // verus!
