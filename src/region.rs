use vstd::prelude::*;

use crate::area::{area_end, AreaInfo};
use crate::protection::{protection_of, Protection};

verus! {

/// A snapshot of one contiguous span of the address space, as the system
/// reported it at the moment of the query.
#[derive(Clone, Copy, Debug, PartialEq, Eq)]
pub struct Region {
    base: usize,
    size: usize,
    protection: Protection,
    shared: bool,
    guarded: bool,
    committed: bool,
}

impl Region {
    pub closed spec fn spec_base(&self) -> usize {
        self.base
    }

    pub closed spec fn spec_len(&self) -> usize {
        self.size
    }

    pub closed spec fn spec_protection(&self) -> Protection {
        self.protection
    }

    pub closed spec fn spec_shared(&self) -> bool {
        self.shared
    }

    pub closed spec fn spec_guarded(&self) -> bool {
        self.guarded
    }

    pub closed spec fn spec_committed(&self) -> bool {
        self.committed
    }

    /// One past the region's last address, saturated at the end of the address space.
    pub open spec fn spec_end(&self) -> int {
        if self.spec_base() + self.spec_len() > usize::MAX {
            usize::MAX as int
        } else {
            self.spec_base() + self.spec_len()
        }
    }

    /// The region that an area's record describes, seen from team `own_team`:
    /// it is shared when another team owns the area. Areas have no guard
    /// pages and are always committed.
    pub fn from_area(info: &AreaInfo, own_team: i32) -> (r: Region)
        ensures
            r.spec_base() == info.address,
            r.spec_len() == info.size,
            r.spec_protection() == protection_of(info.protection),
            r.spec_shared() == (info.team != own_team),
            !r.spec_guarded(),
            r.spec_committed(),
            r.spec_end() == area_end(*info),
    {
        Region {
            base: info.address,
            size: info.size,
            protection: Protection::from_native(info.protection),
            shared: info.team != own_team,
            guarded: false,
            committed: true,
        }
    }

    /// The region's base address.
    pub fn as_ptr(&self) -> (r: usize)
        ensures
            r == self.spec_base(),
    {
        self.base
    }

    /// The half-open range of addresses that the region spans.
    pub fn as_range(&self) -> (r: std::ops::Range<usize>)
        ensures
            r.start == self.spec_base(),
            r.end == self.spec_end(),
    {
        std::ops::Range { start: self.base, end: self.base.saturating_add(self.size) }
    }

    /// The region's length in bytes.
    pub fn len(&self) -> (r: usize)
        ensures
            r == self.spec_len(),
    {
        self.size
    }

    /// The region's protection.
    pub fn protection(&self) -> (r: Protection)
        ensures
            r == self.spec_protection(),
    {
        self.protection
    }

    /// Whether the region is mapped by another process as well.
    pub fn is_shared(&self) -> (r: bool)
        ensures
            r == self.spec_shared(),
    {
        self.shared
    }

    /// Whether the region is a guard region.
    pub fn is_guarded(&self) -> (r: bool)
        ensures
            r == self.spec_guarded(),
    {
        self.guarded
    }

    /// Whether the region's memory is committed rather than only reserved.
    pub fn is_committed(&self) -> (r: bool)
        ensures
            r == self.spec_committed(),
    {
        self.committed
    }

    /// Whether the region can be read.
    pub fn is_readable(&self) -> (r: bool)
        ensures
            r == self.spec_protection().spec_readable(),
    {
        self.protection.is_readable()
    }

    /// Whether the region can be written.
    pub fn is_writable(&self) -> (r: bool)
        ensures
            r == self.spec_protection().spec_writable(),
    {
        self.protection.is_writable()
    }

    /// Whether the region can be executed.
    pub fn is_executable(&self) -> (r: bool)
        ensures
            r == self.spec_protection().spec_executable(),
    {
        self.protection.is_executable()
    }
}

} // verus!
