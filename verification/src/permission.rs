//! Memory permissions of a guest mapping.
use vstd::prelude::*;

use crate::ffi::types::{hv_memory_flags_t, HV_MEMORY_EXEC, HV_MEMORY_READ, HV_MEMORY_WRITE};

verus! {

/// Represent the permission of a memory region.
#[derive(Copy, Clone, Debug, PartialEq, Eq, Structural)]
pub struct MemoryPermission {
    /// Read.
    read: bool,
    /// Write.
    write: bool,
    /// Execute.
    execute: bool,
}

/// The flag word with exactly the bits of the granted accesses set.
pub open spec fn permission_flags(read: bool, write: bool, execute: bool) -> hv_memory_flags_t {
    (if read { HV_MEMORY_READ } else { 0 })
    | (if write { HV_MEMORY_WRITE } else { 0 })
    | (if execute { HV_MEMORY_EXEC } else { 0 })
}

impl MemoryPermission {
    /// Whether reads are granted.
    pub closed spec fn can_read(self) -> bool {
        self.read
    }

    /// Whether writes are granted.
    pub closed spec fn can_write(self) -> bool {
        self.write
    }

    /// Whether instruction fetches are granted.
    pub closed spec fn can_execute(self) -> bool {
        self.execute
    }

    /// The backend's flag word for this permission.
    pub open spec fn flags(self) -> hv_memory_flags_t {
        permission_flags(self.can_read(), self.can_write(), self.can_execute())
    }

    /// Create a new memory permission instance.
    pub fn new(read: bool, write: bool, execute: bool) -> (permission: Self)
        ensures
            permission.can_read() == read,
            permission.can_write() == write,
            permission.can_execute() == execute,
    {
        MemoryPermission { read, write, execute }
    }

    /// Read-only.
    pub fn read() -> (permission: Self)
        ensures
            permission.can_read(),
            !permission.can_write(),
            !permission.can_execute(),
    {
        MemoryPermission::new(true, false, false)
    }

    /// Write-only.
    pub fn write() -> (permission: Self)
        ensures
            !permission.can_read(),
            permission.can_write(),
            !permission.can_execute(),
    {
        MemoryPermission::new(false, true, false)
    }

    /// Execute-only.
    pub fn execute() -> (permission: Self)
        ensures
            !permission.can_read(),
            !permission.can_write(),
            permission.can_execute(),
    {
        MemoryPermission::new(false, false, true)
    }

    /// Read Write.
    pub fn read_write() -> (permission: Self)
        ensures
            permission.can_read(),
            permission.can_write(),
            !permission.can_execute(),
    {
        MemoryPermission::new(true, true, false)
    }

    /// Read Execute.
    pub fn read_execute() -> (permission: Self)
        ensures
            permission.can_read(),
            !permission.can_write(),
            permission.can_execute(),
    {
        MemoryPermission::new(true, false, true)
    }

    /// Write Execute.
    pub fn write_execute() -> (permission: Self)
        ensures
            !permission.can_read(),
            permission.can_write(),
            permission.can_execute(),
    {
        MemoryPermission::new(false, true, true)
    }

    /// Read Write Execute.
    pub fn read_write_execute() -> (permission: Self)
        ensures
            permission.can_read(),
            permission.can_write(),
            permission.can_execute(),
    {
        MemoryPermission::new(true, true, true)
    }

    /// A permission is its three grants and nothing else: two permissions that grant the same
    /// accesses are equal.
    pub proof fn law_grants_determine_the_permission(self, other: Self)
        requires
            self.can_read() == other.can_read(),
            self.can_write() == other.can_write(),
            self.can_execute() == other.can_execute(),
        ensures
            self == other,
    {
    }

    /// Each grant can be read back from the flag word, so the word determines the permission.
    pub proof fn law_flags_hold_one_bit_per_grant(self)
        ensures
            self.can_read() <==> self.flags() & HV_MEMORY_READ != 0,
            self.can_write() <==> self.flags() & HV_MEMORY_WRITE != 0,
            self.can_execute() <==> self.flags() & HV_MEMORY_EXEC != 0,
            self.flags() <= 7,
            self.flags() == (if self.can_read() { 1int } else { 0 })
                + (if self.can_write() { 2int } else { 0 })
                + (if self.can_execute() { 4int } else { 0 }),
    {
        let r: u64 = if self.read { 1 } else { 0 };
        let w: u64 = if self.write { 2 } else { 0 };
        let x: u64 = if self.execute { 4 } else { 0 };
        assert((r == 0 || r == 1) && (w == 0 || w == 2) && (x == 0 || x == 4) ==> ((r | w | x) & 1
            != 0 <==> r == 1) && ((r | w | x) & 2 != 0 <==> w == 2) && ((r | w | x) & 4 != 0 <==> x
            == 4) && (r | w | x) == r + w + x) by (bit_vector);
    }
}

impl From<MemoryPermission> for hv_memory_flags_t {
    /// The flag word handed to the backend: one bit per granted access, OR-ed together.
    fn from(value: MemoryPermission) -> (flags: hv_memory_flags_t)
        ensures
            flags == value.flags(),
    {
        let mut result: hv_memory_flags_t = 0;

        if value.read {
            result |= HV_MEMORY_READ;
        }
        if value.write {
            result |= HV_MEMORY_WRITE;
        }
        if value.execute {
            result |= HV_MEMORY_EXEC;
        }
        proof {
            // a grant that is withheld contributes a zero, which changes nothing
            let r: u64 = if value.read { HV_MEMORY_READ } else { 0 };
            let w: u64 = if value.write { HV_MEMORY_WRITE } else { 0 };
            assert(0u64 | r == r && r | 0 == r && (r | w) | 0 == r | w) by (bit_vector);
        }
        result
    }
}

impl vstd::std_specs::convert::FromSpecImpl<MemoryPermission> for hv_memory_flags_t {
    open spec fn obeys_from_spec() -> bool {
        true
    }

    open spec fn from_spec(value: MemoryPermission) -> hv_memory_flags_t {
        value.flags()
    }
}

} // verus!
