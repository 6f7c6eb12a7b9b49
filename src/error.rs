use vstd::prelude::*;

verus! {

/// The ways an operation on the address space can fail.
#[derive(Clone, Copy, Debug, PartialEq, Eq)]
pub enum Error {
    /// The address is not part of a span reserved by this library, or the
    /// system no longer knows its area.
    UnmappedRegion,
    /// A size, address or protection was rejected; the text names which.
    InvalidParameter(&'static str),
    /// The system could not find the memory for a reservation.
    OutOfMemory,
    /// Any other failure of a system call, with the native status or error number.
    SystemCall(i32),
}

impl Error {
    /// A short description of the failure.
    pub fn describe(&self) -> (r: &'static str)
        ensures
            self is InvalidParameter ==> r == self->InvalidParameter_0,
    {
        match self {
            Error::UnmappedRegion => "address does not contain allocated memory",
            Error::InvalidParameter(what) => what,
            Error::OutOfMemory => "out of memory",
            Error::SystemCall(_) => "system call failed",
        }
    }
}

} // verus!
