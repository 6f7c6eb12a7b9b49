use vstd::prelude::*;

use crate::error::Error;

verus! {

/// The size of a page on Haiku, in bytes (its `B_PAGE_SIZE`).
pub const PAGE_SIZE: usize = 4096;

/// The start of the page that holds address `a`.
pub open spec fn page_floor(a: int) -> int {
    a - a % (PAGE_SIZE as int)
}

/// The least multiple of the page size that is not below `a`.
pub open spec fn page_ceil(a: int) -> int {
    if a % (PAGE_SIZE as int) == 0 {
        a
    } else {
        page_floor(a) + PAGE_SIZE
    }
}

/// Whether `a` lies on a page boundary.
pub open spec fn page_aligned(a: int) -> bool {
    a % (PAGE_SIZE as int) == 0
}

/// The length of the page-aligned span that covers `size` bytes from `address`.
pub open spec fn covering_len(address: int, size: int) -> int {
    page_ceil(address % (PAGE_SIZE as int) + size)
}

/// The system's page size.
pub fn page_size() -> (r: usize)
    ensures
        r == PAGE_SIZE,
{
    PAGE_SIZE
}

/// Rounds an address down to the start of its page.
pub fn floor(address: usize) -> (r: usize)
    ensures
        r == page_floor(address as int),
        page_aligned(r as int),
        r <= address < r + PAGE_SIZE,
{
    address - address % PAGE_SIZE
}

/// Rounds an address up to the next page boundary, or gives `None` where
/// that boundary lies past the end of the address space.
pub fn ceil(address: usize) -> (r: Option<usize>)
    ensures
        r matches Some(v) ==> v == page_ceil(address as int),
        r is None <==> page_ceil(address as int) > usize::MAX,
        r matches Some(v) ==> page_aligned(v as int) && address <= v < address + PAGE_SIZE,
{
    let rem = address % PAGE_SIZE;
    if rem == 0 {
        Some(address)
    } else if address <= usize::MAX - (PAGE_SIZE - rem) {
        Some(address + (PAGE_SIZE - rem))
    } else {
        None
    }
}

/// The page-aligned span that covers `size` bytes from `address`: its start,
/// the start of the page of `address`, and its length.
///
/// A zero size, and a span whose length does not fit in `usize`, are
/// rejected as an invalid size.
pub fn round_to_page_boundaries(address: usize, size: usize) -> (r: Result<(usize, usize), Error>)
    ensures
        size == 0 ==> r == Err::<(usize, usize), Error>(Error::InvalidParameter("size")),
        size > 0 && covering_len(address as int, size as int) > usize::MAX ==> r == Err::<
            (usize, usize),
            Error,
        >(Error::InvalidParameter("size")),
        size > 0 && covering_len(address as int, size as int) <= usize::MAX ==> r == Ok::<
            (usize, usize),
            Error,
        >((page_floor(address as int) as usize, covering_len(address as int, size as int) as usize)),
        r matches Ok((start, len)) ==> page_aligned(start as int) && page_aligned(len as int)
            && start <= address && address + size <= start + len,
{
    if size == 0 {
        return Err(Error::InvalidParameter("size"));
    }
    let offset = address % PAGE_SIZE;
    if size > usize::MAX - offset {
        return Err(Error::InvalidParameter("size"));
    }
    match ceil(offset + size) {
        Some(len) => Ok((floor(address), len)),
        None => Err(Error::InvalidParameter("size")),
    }
}

} // verus!
