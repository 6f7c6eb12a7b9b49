use vstd::prelude::*;

use crate::error::Error;
use crate::protection::{native_of, Protection};
use crate::registry::{lookup_result, Registry};

verus! {

/// The arguments of one native change of protection.
#[derive(Clone, Copy, Debug, PartialEq, Eq, Structural)]
pub struct ProtectRequest {
    /// The area whose protection changes.
    pub area: i32,
    /// The new native protection flags.
    pub protection: u32,
}

/// Plans a change of protection at `address`: the area that owns the page of
/// `address` gets the native flags of `protection`. Where that page has no
/// entry the plan fails with `UnmappedRegion`, and no native call is to be made.
pub fn plan_protect(registry: &Registry, address: usize, protection: Protection) -> (r: Result<
    ProtectRequest,
    Error,
>)
    ensures
        lookup_result(registry@, address) matches Ok(area) ==> r == Ok::<ProtectRequest, Error>(
            (ProtectRequest { area, protection: native_of(protection) }),
        ),
        lookup_result(registry@, address) is Err ==> r == Err::<ProtectRequest, Error>(
            Error::UnmappedRegion,
        ),
{
    match registry.lookup(address) {
        Ok(area) => Ok(ProtectRequest { area, protection: protection.to_native() }),
        Err(e) => Err(e),
    }
}

} // verus!
