use vstd::prelude::*;

verus! {

/// Size of the represented RDRAM address space reached through the direct segments.
pub const RDRAM_SIZE_BYTES: usize = 0x0040_0000;

} // verus!
