//! Core of a PlayStation-class MIPS R3000A emulator: a cycle-stepped CPU
//! interpreter with branch- and load-delay slots, a 4-word by 256-line
//! direct-mapped instruction cache, coprocessor 0, and the memory-management
//! unit that decodes the physical address map and its mirrored segments.

pub mod arith;
pub mod cache;
pub mod cop0;
pub mod cpu;
pub mod fault;
pub mod instruction;
pub mod laws;
pub mod mmu;
pub mod timers;
