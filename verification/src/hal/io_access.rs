//! Word-sized accesses through references.
//!
//! These are the accessors the device drivers use for every register word
//! they own in memory: a write stores exactly the given value, a read gives
//! back exactly what the word holds.
use vstd::prelude::*;

verus! {

/// Stores `data` in the 32-bit word behind `ptr`.
pub fn io_write32(ptr: &mut u32, data: u32)
    ensures
        *final(ptr) == data,
{
    *ptr = data;
}

/// Loads the 32-bit word behind `ptr`.
pub fn io_read32(ptr: &u32) -> (r: u32)
    ensures
        r == *ptr,
{
    *ptr
}

/// Stores `data` in the 64-bit word behind `ptr`.
pub fn io_write64(ptr: &mut u64, data: u64)
    ensures
        *final(ptr) == data,
{
    *ptr = data;
}

/// Loads the 64-bit word behind `ptr`.
pub fn io_read64(ptr: &u64) -> (r: u64)
    ensures
        r == *ptr,
{
    *ptr
}

} // verus!
