//! Small facts about masking that the address decoders lean on.

use vstd::prelude::*;

verus! {

/// Masking with a constant keeps the value under the mask's successor;
/// these are the masks the bus and the mapper decode with.
pub proof fn lemma_u16_mask_bounds(a: u16)
    by (bit_vector)
    ensures
        a & 0x0001 < 2,
        a & 0x0007 < 8,
        a & 0x001F < 32,
        a & 0x00FF < 256,
        a & 0x03FF < 1024,
        a & 0x07FF < 2048,
        a & 0x0FFF < 4096,
        a & 0x1FFF < 8192,
        a & 0x3FFF < 16384,
        a & 0x3FFF < 0x4000,
        a & 0x7FFF < 0x8000,
        (a & 0x07FF) & 0x07FF == a & 0x07FF,
{
}

} // verus!
