use vstd::prelude::*;

use crate::area::AreaInfo;
use crate::error::Error;
use crate::region::Region;

verus! {

/// What a query does with the next region that the system enumerates.
#[derive(Clone, Copy, Debug, PartialEq, Eq, Structural)]
pub enum Visit {
    /// The region ends before the queried range: pass over it.
    Skip,
    /// The region overlaps the queried range: hand it out.
    Yield,
    /// The region starts past the queried range: the query is over.
    Stop,
}

/// The range of addresses that a query covers: from `origin` up to, not
/// including, `upper`.
#[derive(Clone, Copy, Debug, PartialEq, Eq, Structural)]
pub struct QueryScope {
    pub origin: usize,
    pub upper: usize,
}

/// `origin + size`, saturated at the end of the address space.
pub open spec fn saturating_end(origin: usize, size: usize) -> usize {
    if origin + size > usize::MAX {
        usize::MAX
    } else {
        (origin + size) as usize
    }
}

/// What a query whose scope is `scope` does with `region`.
pub open spec fn visit_of(scope: QueryScope, region: Region) -> Visit {
    if region.spec_end() <= scope.origin {
        Visit::Skip
    } else if region.spec_base() >= scope.upper {
        Visit::Stop
    } else {
        Visit::Yield
    }
}

impl QueryScope {
    /// The scope of a query of `size` bytes from `origin`, inside the area
    /// that owns `origin`: the area must be at least `size` bytes long, else
    /// the range is not mapped as one area.
    pub fn new(owner: &AreaInfo, origin: usize, size: usize) -> (r: Result<QueryScope, Error>)
        ensures
            owner.size < size ==> r == Err::<QueryScope, Error>(Error::UnmappedRegion),
            owner.size >= size ==> r == Ok::<QueryScope, Error>(
                (QueryScope { origin, upper: saturating_end(origin, size) }),
            ),
    {
        if owner.size < size {
            Err(Error::UnmappedRegion)
        } else {
            Ok(QueryScope { origin, upper: origin.saturating_add(size) })
        }
    }

    /// The first address past the queried range.
    pub fn upper_bound(&self) -> (r: usize)
        ensures
            r == self.upper,
    {
        self.upper
    }

    /// Passes over regions that end before the queried range, hands out those
    /// that overlap it, and stops at the first that starts past it.
    pub fn visit(&self, region: &Region) -> (r: Visit)
        ensures
            r == visit_of(*self, *region),
    {
        let range = region.as_range();
        if range.end <= self.origin {
            Visit::Skip
        } else if range.start >= self.upper {
            Visit::Stop
        } else {
            Visit::Yield
        }
    }
}

} // verus!
