use vstd::prelude::*;

verus! {

/// Number of interrupt source slots: ids run from 1 to 1023, and 0 is reserved.
pub const PLIC_NUM_SOURCES: usize = 1024;

/// Offset of the priority register of source 0; source `n` is at `4 * n`.
pub const PLIC_PRIORITY_OFFSET: usize = 0x000000;

/// Offset of the first pending word; word `w` covers sources `32 * w .. 32 * w + 32`.
pub const PLIC_PENDING_OFFSET: usize = 0x001000;

/// Offset of the enable bits of context 0.
pub const PLIC_ENABLE_OFFSET: usize = 0x002000;

/// Distance between the enable blocks of two contexts.
pub const PLIC_ENABLE_STRIDE: usize = 0x80;

/// Offset of the control registers (threshold, claim/complete) of context 0.
pub const PLIC_CONTEXT_CTRL_OFFSET: usize = 0x200000;

/// Distance between the control blocks of two contexts.
pub const PLIC_CONTEXT_STRIDE: usize = 0x1000;

/// Offset of the threshold register inside a context's control block.
pub const PLIC_CONTEXT_THRESHOLD_OFFSET: usize = 0x00;

/// Offset of the claim/complete register inside a context's control block.
pub const PLIC_CONTEXT_CLAIM_COMPLETE_OFFSET: usize = 0x04;

/// Number of 32-bit words in the pending region.
pub const PLIC_PENDING_WORDS: usize = 0x400;

/// The only access width, in bytes, that the controller accepts.
pub const PLIC_ACCESS_WIDTH: usize = 4;

} // verus!
