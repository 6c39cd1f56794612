use vstd::prelude::*;

verus! {

/// The size in bytes of a page of memory, the unit in which protection is
/// changed.
pub const PAGE_SIZE: u64 = 4096;

/// The start of the page that contains `address`.
pub open spec fn page_of(address: u64) -> u64 {
    (address - address % PAGE_SIZE) as u64
}

/// Rounds `address` down to the boundary of its page.
pub fn page_address(address: u64) -> (page: u64)
    ensures
        page == page_of(address),
        page % PAGE_SIZE == 0,
        page <= address < page + PAGE_SIZE,
{
    assert(address & !4095u64 == address - address % 4096) by (bit_vector);
    address & !(PAGE_SIZE - 1)
}

} // verus!
