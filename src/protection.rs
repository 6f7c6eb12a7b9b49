use vstd::prelude::*;

verus! {

/// Native flag granting read access to an area (Haiku's `B_READ_AREA`).
pub const AREA_READ: u32 = 1;

/// Native flag granting write access to an area (Haiku's `B_WRITE_AREA`).
pub const AREA_WRITE: u32 = 2;

/// Native flag granting execute access to an area (Haiku's `B_EXECUTE_AREA`).
pub const AREA_EXECUTE: u32 = 4;

/// The access rights of a span of pages: a set over read, write and execute,
/// one variant per combination.
#[allow(non_camel_case_types)]
#[derive(Clone, Copy, Debug, PartialEq, Eq, Structural, Hash)]
pub enum Protection {
    NONE,
    READ,
    WRITE,
    EXECUTE,
    READ_WRITE,
    READ_EXECUTE,
    WRITE_EXECUTE,
    READ_WRITE_EXECUTE,
}

/// The protection that holds exactly the given rights.
pub open spec fn with_rights(read: bool, write: bool, execute: bool) -> Protection {
    if read {
        if write {
            if execute { Protection::READ_WRITE_EXECUTE } else { Protection::READ_WRITE }
        } else {
            if execute { Protection::READ_EXECUTE } else { Protection::READ }
        }
    } else {
        if write {
            if execute { Protection::WRITE_EXECUTE } else { Protection::WRITE }
        } else {
            if execute { Protection::EXECUTE } else { Protection::NONE }
        }
    }
}

/// The native flags that stand for `p`: the union of one flag per right held.
pub open spec fn native_of(p: Protection) -> u32 {
    (if p.spec_readable() { AREA_READ } else { 0u32 }) | (if p.spec_writable() {
        AREA_WRITE
    } else {
        0u32
    }) | (if p.spec_executable() { AREA_EXECUTE } else { 0u32 })
}

/// The protection that native flags stand for; bits other than the three
/// area flags carry no right.
pub open spec fn protection_of(native: u32) -> Protection {
    with_rights(
        native & AREA_READ == AREA_READ,
        native & AREA_WRITE == AREA_WRITE,
        native & AREA_EXECUTE == AREA_EXECUTE,
    )
}

impl Protection {
    pub open spec fn spec_readable(self) -> bool {
        self is READ || self is READ_WRITE || self is READ_EXECUTE || self is READ_WRITE_EXECUTE
    }

    pub open spec fn spec_writable(self) -> bool {
        self is WRITE || self is READ_WRITE || self is WRITE_EXECUTE || self is READ_WRITE_EXECUTE
    }

    pub open spec fn spec_executable(self) -> bool {
        self is EXECUTE || self is READ_EXECUTE || self is WRITE_EXECUTE
            || self is READ_WRITE_EXECUTE
    }

    /// The protection that holds exactly the given rights.
    pub fn from_rights(read: bool, write: bool, execute: bool) -> (r: Protection)
        ensures
            r == with_rights(read, write, execute),
    {
        if read {
            if write {
                if execute { Protection::READ_WRITE_EXECUTE } else { Protection::READ_WRITE }
            } else {
                if execute { Protection::READ_EXECUTE } else { Protection::READ }
            }
        } else {
            if write {
                if execute { Protection::WRITE_EXECUTE } else { Protection::WRITE }
            } else {
                if execute { Protection::EXECUTE } else { Protection::NONE }
            }
        }
    }

    /// Whether the protection grants read access.
    pub fn is_readable(self) -> (r: bool)
        ensures
            r == self.spec_readable(),
    {
        match self {
            Protection::READ | Protection::READ_WRITE | Protection::READ_EXECUTE
            | Protection::READ_WRITE_EXECUTE => true,
            _ => false,
        }
    }

    /// Whether the protection grants write access.
    pub fn is_writable(self) -> (r: bool)
        ensures
            r == self.spec_writable(),
    {
        match self {
            Protection::WRITE | Protection::READ_WRITE | Protection::WRITE_EXECUTE
            | Protection::READ_WRITE_EXECUTE => true,
            _ => false,
        }
    }

    /// Whether the protection grants execute access.
    pub fn is_executable(self) -> (r: bool)
        ensures
            r == self.spec_executable(),
    {
        match self {
            Protection::EXECUTE | Protection::READ_EXECUTE | Protection::WRITE_EXECUTE
            | Protection::READ_WRITE_EXECUTE => true,
            _ => false,
        }
    }

    /// The rights held by either protection.
    pub fn union(self, other: Protection) -> (r: Protection)
        ensures
            r == with_rights(
                self.spec_readable() || other.spec_readable(),
                self.spec_writable() || other.spec_writable(),
                self.spec_executable() || other.spec_executable(),
            ),
    {
        Protection::from_rights(
            self.is_readable() || other.is_readable(),
            self.is_writable() || other.is_writable(),
            self.is_executable() || other.is_executable(),
        )
    }

    /// Whether every right of `other` is held by `self`.
    pub fn contains(self, other: Protection) -> (r: bool)
        ensures
            r == ((other.spec_readable() ==> self.spec_readable()) && (other.spec_writable()
                ==> self.spec_writable()) && (other.spec_executable() ==> self.spec_executable())),
    {
        (!other.is_readable() || self.is_readable()) && (!other.is_writable()
            || self.is_writable()) && (!other.is_executable() || self.is_executable())
    }

    /// Translates native area flags, each recognised flag to its right;
    /// unknown bits are ignored.
    pub fn from_native(native: u32) -> (r: Protection)
        ensures
            r == protection_of(native),
    {
        Protection::from_rights(
            native & AREA_READ == AREA_READ,
            native & AREA_WRITE == AREA_WRITE,
            native & AREA_EXECUTE == AREA_EXECUTE,
        )
    }

    /// Translates to native area flags: the union of the flags of the rights held.
    pub fn to_native(self) -> (r: u32)
        ensures
            r == native_of(self),
    {
        let read: u32 = if self.is_readable() { AREA_READ } else { 0 };
        let write: u32 = if self.is_writable() { AREA_WRITE } else { 0 };
        let execute: u32 = if self.is_executable() { AREA_EXECUTE } else { 0 };
        read | write | execute
    }
}

/// Translating a protection to native flags and back gives the same protection.
pub proof fn lemma_native_round_trip(p: Protection)
    ensures
        protection_of(native_of(p)) == p,
{
    let r: u32 = if p.spec_readable() { AREA_READ } else { 0u32 };
    let w: u32 = if p.spec_writable() { AREA_WRITE } else { 0u32 };
    let x: u32 = if p.spec_executable() { AREA_EXECUTE } else { 0u32 };
    assert(((r | w | x) & 1 == 1) == (r == 1) && ((r | w | x) & 2 == 2) == (w == 2) && ((r | w
        | x) & 4 == 4) == (x == 4)) by (bit_vector)
        requires
            r == 0 || r == 1,
            w == 0 || w == 2,
            x == 0 || x == 4,
    ;
}

/// Translating native flags to a protection and back keeps exactly the three
/// area flags of the input.
pub proof fn lemma_native_keeps_known_flags(native: u32)
    ensures
        native_of(protection_of(native)) == native & (AREA_READ | AREA_WRITE | AREA_EXECUTE),
{
    let p = protection_of(native);
    assert(native_of(p) == ((if native & 1 == 1 { 1u32 } else { 0u32 }) | (if native & 2 == 2 {
        2u32
    } else {
        0u32
    }) | (if native & 4 == 4 { 4u32 } else { 0u32 })));
    assert(((if native & 1 == 1 { 1u32 } else { 0u32 }) | (if native & 2 == 2 {
        2u32
    } else {
        0u32
    }) | (if native & 4 == 4 { 4u32 } else { 0u32 })) == native & 7) by (bit_vector);
    assert((1u32 | 2u32 | 4u32) == 7u32) by (bit_vector);
}

} // verus!
