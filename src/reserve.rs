use vstd::prelude::*;

use crate::error::Error;
use crate::page::{
    ceil, covering_len, page_aligned, page_ceil, page_floor, round_to_page_boundaries, PAGE_SIZE,
};
use crate::protection::{native_of, Protection};

verus! {

/// The arguments of one native area creation.
#[derive(Clone, Copy, Debug, PartialEq, Eq, Structural)]
pub struct AreaRequest {
    /// The exact address to place the area at, or `None` to let the system choose.
    pub address: Option<usize>,
    /// The area's length in bytes, a multiple of the page size.
    pub size: usize,
    /// The native protection flags.
    pub protection: u32,
}

/// Plans a reservation of at least `size` bytes at an address that the system
/// chooses: the size is rounded up to whole pages.
///
/// A zero size, and one whose rounding does not fit in `usize`, are rejected.
pub fn plan_alloc(size: usize, protection: Protection) -> (r: Result<AreaRequest, Error>)
    ensures
        size == 0 ==> r == Err::<AreaRequest, Error>(Error::InvalidParameter("size")),
        size > 0 && page_ceil(size as int) > usize::MAX ==> r == Err::<AreaRequest, Error>(
            Error::InvalidParameter("size"),
        ),
        size > 0 && page_ceil(size as int) <= usize::MAX ==> r == Ok::<AreaRequest, Error>(
            (AreaRequest {
                address: None,
                size: page_ceil(size as int) as usize,
                protection: native_of(protection),
            }),
        ),
        r matches Ok(request) ==> page_aligned(request.size as int) && size <= request.size < size
            + PAGE_SIZE,
{
    if size == 0 {
        return Err(Error::InvalidParameter("size"));
    }
    match ceil(size) {
        Some(len) => Ok(AreaRequest { address: None, size: len, protection: protection.to_native() }),
        None => Err(Error::InvalidParameter("size")),
    }
}

/// Plans a reservation that covers `size` bytes from `address`: the area
/// starts at the page of `address` and spans whole pages.
///
/// A zero size, and a span whose length does not fit in `usize`, are rejected.
pub fn plan_alloc_at(address: usize, size: usize, protection: Protection) -> (r: Result<
    AreaRequest,
    Error,
>)
    ensures
        size == 0 ==> r == Err::<AreaRequest, Error>(Error::InvalidParameter("size")),
        size > 0 && covering_len(address as int, size as int) > usize::MAX ==> r == Err::<
            AreaRequest,
            Error,
        >(Error::InvalidParameter("size")),
        size > 0 && covering_len(address as int, size as int) <= usize::MAX ==> r == Ok::<
            AreaRequest,
            Error,
        >(
            (AreaRequest {
                address: Some(page_floor(address as int) as usize),
                size: covering_len(address as int, size as int) as usize,
                protection: native_of(protection),
            }),
        ),
        r matches Ok(request) ==> request.address matches Some(start) && page_aligned(start as int)
            && page_aligned(request.size as int) && start <= address && address + size <= start
            + request.size,
{
    match round_to_page_boundaries(address, size) {
        Ok((start, len)) => Ok(
            AreaRequest { address: Some(start), size: len, protection: protection.to_native() },
        ),
        Err(e) => Err(e),
    }
}

} // verus!
