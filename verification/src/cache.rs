//! The instruction cache: 256 direct-mapped lines of four words.
//!
//! A line remembers the tag (address bits 12..30) of the block it holds and
//! the index of its first valid word; `valid == 4` marks the whole line
//! invalid. A fetch that misses refills the line from the missing word to
//! the end; a cache-isolated store invalidates the line it hits.

use vstd::prelude::*;

verus! {

/// One cache line: a tag, the index of the first valid word, and four
/// data words.
#[derive(Clone, Copy, Debug, PartialEq, Eq, Structural)]
pub struct InstructionCacheLine {
    pub valid: u32,
    pub tag: u32,
    pub word0: u32,
    pub word1: u32,
    pub word2: u32,
    pub word3: u32,
}

impl InstructionCacheLine {
    /// A line at reset: wholly invalid, so the first fetch through it
    /// misses.
    pub open spec fn reset() -> InstructionCacheLine {
        InstructionCacheLine { valid: 4, tag: 0, word0: 0, word1: 0, word2: 0, word3: 0 }
    }

    /// The data word at index `i` (0..3).
    pub open spec fn word(self, i: int) -> u32
        recommends
            0 <= i < 4,
    {
        if i == 0 {
            self.word0
        } else if i == 1 {
            self.word1
        } else if i == 2 {
            self.word2
        } else {
            self.word3
        }
    }

    /// The line with the data word at index `i` replaced by `value`.
    pub open spec fn with_word(self, i: int, value: u32) -> InstructionCacheLine
        recommends
            0 <= i < 4,
    {
        if i == 0 {
            InstructionCacheLine { word0: value, ..self }
        } else if i == 1 {
            InstructionCacheLine { word1: value, ..self }
        } else if i == 2 {
            InstructionCacheLine { word2: value, ..self }
        } else {
            InstructionCacheLine { word3: value, ..self }
        }
    }

    /// Whether the line can serve a fetch of the word at index `i` of the
    /// block tagged `tag`.
    pub open spec fn usable(self, tag: u32, i: int) -> bool {
        self.tag == tag && self.valid <= i
    }

    /// A wholly invalid line.
    pub fn new() -> (r: InstructionCacheLine)
        ensures
            r == InstructionCacheLine::reset(),
    {
        InstructionCacheLine { valid: 4, tag: 0, word0: 0, word1: 0, word2: 0, word3: 0 }
    }

    /// Read the data word at index `i`.
    pub fn read_word(&self, i: u32) -> (r: u32)
        requires
            i < 4,
        ensures
            r == self.word(i as int),
    {
        if i == 0 {
            self.word0
        } else if i == 1 {
            self.word1
        } else if i == 2 {
            self.word2
        } else {
            self.word3
        }
    }

    /// Replace the data word at index `i` by `value`.
    pub fn set_word(&mut self, i: u32, value: u32)
        requires
            i < 4,
        ensures
            *final(self) == old(self).with_word(i as int, value),
    {
        if i == 0 {
            self.word0 = value;
        } else if i == 1 {
            self.word1 = value;
        } else if i == 2 {
            self.word2 = value;
        } else {
            self.word3 = value;
        }
    }
}

/// The cache line index an address selects: bits 4..11.
pub open spec fn spec_line_index(address: u32) -> int {
    ((address >> 4) % 256) as int
}

/// The word index within a line an address selects: bits 2..3.
pub open spec fn spec_word_index(address: u32) -> int {
    ((address >> 2) % 4) as int
}

/// The tag of the block an address belongs to: bits 12..30.
pub open spec fn spec_cache_tag(address: u32) -> u32 {
    address & 0x7FFFF000
}

/// The cache line index an address selects: bits 4..11.
pub fn line_index(address: u32) -> (r: u32)
    ensures
        r == spec_line_index(address),
        r < 256,
{
    (address >> 4) % 256
}

/// The word index within a line an address selects: bits 2..3.
pub fn word_index(address: u32) -> (r: u32)
    ensures
        r == spec_word_index(address),
        r < 4,
{
    (address >> 2) % 4
}

/// The tag of the block an address belongs to: bits 12..30.
pub fn cache_tag(address: u32) -> (r: u32)
    ensures
        r == spec_cache_tag(address),
{
    address & 0x7FFFF000
}

} // verus!
