use vstd::prelude::*;

use crate::error::Error;

verus! {

/// Status of a native call that succeeded (Haiku's `B_OK`).
pub const STATUS_OK: i32 = 0;

/// Status of a call that found no memory (Haiku's `B_NO_MEMORY`).
pub const STATUS_NO_MEMORY: i32 = i32::MIN;

/// Status of a call given a bad value (Haiku's `B_BAD_VALUE`).
pub const STATUS_BAD_VALUE: i32 = i32::MIN + 5;

/// Status of a call given a bad address (Haiku's `B_BAD_ADDRESS`).
pub const STATUS_BAD_ADDRESS: i32 = i32::MIN + 0x1301;

/// What the system reports of one area: the fields of its `area_info` that
/// this library reads.
#[derive(Clone, Copy, Debug, PartialEq, Eq, Structural)]
pub struct AreaInfo {
    /// The area's identifier.
    pub area: i32,
    /// The address of its first byte.
    pub address: usize,
    /// Its length in bytes.
    pub size: usize,
    /// Its native protection flags.
    pub protection: u32,
    /// The team (process) that owns it.
    pub team: i32,
}

/// One past the last address of an area, or the end of the address space
/// where the area would reach beyond it.
pub open spec fn area_end(info: AreaInfo) -> int {
    if info.address + info.size > usize::MAX {
        usize::MAX as int
    } else {
        info.address + info.size
    }
}

/// The error that a failed area creation stands for.
pub open spec fn creation_error(status: i32) -> Error {
    if status == STATUS_BAD_ADDRESS {
        Error::InvalidParameter("bad address")
    } else if status == STATUS_BAD_VALUE {
        Error::InvalidParameter("bad value")
    } else if status == STATUS_NO_MEMORY {
        Error::OutOfMemory
    } else {
        Error::SystemCall(status)
    }
}

impl AreaInfo {
    /// The address of the area's first byte.
    pub fn start(&self) -> (r: usize)
        ensures
            r == self.address,
    {
        self.address
    }

    /// One past the area's last address, saturated at the end of the address space.
    pub fn end(&self) -> (r: usize)
        ensures
            r == area_end(*self),
    {
        self.address.saturating_add(self.size)
    }
}

/// Reads the status of an area creation: a non-negative status is the new
/// area's identifier; a negative one is classified as an error.
pub fn area_created(status: i32) -> (r: Result<i32, Error>)
    ensures
        status >= STATUS_OK ==> r == Ok::<i32, Error>(status),
        status < STATUS_OK ==> r == Err::<i32, Error>(creation_error(status)),
{
    if status >= STATUS_OK {
        Ok(status)
    } else if status == STATUS_BAD_ADDRESS {
        Err(Error::InvalidParameter("bad address"))
    } else if status == STATUS_BAD_VALUE {
        Err(Error::InvalidParameter("bad value"))
    } else if status == STATUS_NO_MEMORY {
        Err(Error::OutOfMemory)
    } else {
        Err(Error::SystemCall(status))
    }
}

/// Reads the status of an area lookup: the area's record where the system
/// still knows the area, else `UnmappedRegion`.
pub fn area_found(status: i32, info: AreaInfo) -> (r: Result<AreaInfo, Error>)
    ensures
        status == STATUS_OK ==> r == Ok::<AreaInfo, Error>(info),
        status != STATUS_OK ==> r == Err::<AreaInfo, Error>(Error::UnmappedRegion),
{
    if status == STATUS_OK {
        Ok(info)
    } else {
        Err(Error::UnmappedRegion)
    }
}

/// Reads the status of a change of protection: any failure is a rejected value.
pub fn protection_changed(status: i32) -> (r: Result<(), Error>)
    ensures
        status >= STATUS_OK ==> r == Ok::<(), Error>(()),
        status < STATUS_OK ==> r == Err::<(), Error>(Error::InvalidParameter("bad value")),
{
    if status < STATUS_OK {
        Err(Error::InvalidParameter("bad value"))
    } else {
        Ok(())
    }
}

/// Reads the return value of a POSIX call such as `mlock`: zero is success,
/// anything else fails with the error number that the call left.
pub fn posix_result(ret: i32, errno: i32) -> (r: Result<(), Error>)
    ensures
        ret == 0 ==> r == Ok::<(), Error>(()),
        ret != 0 ==> r == Err::<(), Error>(Error::SystemCall(errno)),
{
    if ret == 0 {
        Ok(())
    } else {
        Err(Error::SystemCall(errno))
    }
}

} // verus!
