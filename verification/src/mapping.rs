//! Guest mappings, and the registry that records them.
use vstd::prelude::*;

use crate::error::HypervisorError;
use crate::ffi::types::hv_ipa_t;
use crate::handle::{AllocationHandle, Counter, MappingHandle};
use crate::permission::MemoryPermission;

verus! {

/// Represent a memory mapping of a Virtual Machine.
#[derive(Copy, Clone, Debug, PartialEq, Eq, Structural)]
pub struct VirtualMachineMapping {
    /// The allocation handle associated to this mapping.
    pub allocation_handle: AllocationHandle,
    /// The handle associated to this mapping.
    pub mapping_handle: MappingHandle,
    /// The guest address of the region.
    pub address: hv_ipa_t,
    /// The size of the region.
    pub size: usize,
    /// The memory permission associated with the region.
    pub permission: MemoryPermission,
}

impl VirtualMachineMapping {
    /// This mapping with its permission replaced and every other field kept.
    pub open spec fn with_permission(self, permission: MemoryPermission) -> Self {
        VirtualMachineMapping { permission, ..self }
    }
}

/// What a mapping registry holds, as mathematics: the active mappings, oldest first, and how many
/// handles were issued so far.
pub struct MappingTable {
    /// The active mappings in the order in which they were recorded.
    pub records: Seq<VirtualMachineMapping>,
    /// The number of handles issued so far, which is also the last handle issued.
    pub issued: nat,
}

impl MappingTable {
    /// The table of a fresh registry: nothing recorded, nothing issued.
    pub open spec fn empty() -> Self {
        MappingTable { records: Seq::empty(), issued: 0 }
    }

    /// Every recorded handle was issued (it is not zero and not above the last one issued), and
    /// no two records go by the same handle.
    pub open spec fn wf(self) -> bool {
        &&& forall|i: int|
            0 <= i < self.records.len() ==> 1 <= (#[trigger] self.records[i]).mapping_handle.0
                <= self.issued
        &&& forall|i: int, j: int|
            0 <= i < self.records.len() && 0 <= j < self.records.len() && i != j
                ==> #[trigger] self.records[i].mapping_handle
                != #[trigger] self.records[j].mapping_handle
    }

    /// Whether a further handle can be issued.
    pub open spec fn has_next(self) -> bool {
        self.issued < u64::MAX
    }

    /// The handle that the next record gets.
    pub open spec fn next_handle(self) -> MappingHandle {
        MappingHandle((self.issued + 1) as u64)
    }

    /// Whether `handle` names an active mapping.
    pub open spec fn contains(self, handle: MappingHandle) -> bool {
        exists|i: int|
            0 <= i < self.records.len() && #[trigger] self.records[i].mapping_handle == handle
    }

    /// The place of the record that goes by `handle`, meaningful when there is one.
    pub open spec fn index_of(self, handle: MappingHandle) -> int {
        choose|i: int|
            0 <= i < self.records.len() && #[trigger] self.records[i].mapping_handle == handle
    }

    /// What looking up `handle` answers: the record, or `InvalidHandle`.
    pub open spec fn get(self, handle: MappingHandle) -> Result<
        VirtualMachineMapping,
        HypervisorError,
    > {
        if self.contains(handle) {
            Ok(self.records[self.index_of(handle)])
        } else {
            Err(HypervisorError::InvalidHandle)
        }
    }

    /// What an operation on the mapping `handle` answers as far as this table decides: an
    /// unknown handle is refused.
    pub open spec fn known(self, handle: MappingHandle) -> Result<(), HypervisorError> {
        if self.contains(handle) {
            Ok(())
        } else {
            Err(HypervisorError::InvalidHandle)
        }
    }

    /// Whether some active mapping exposes the allocation `handle`.
    pub open spec fn references(self, handle: AllocationHandle) -> bool {
        exists|i: int|
            0 <= i < self.records.len() && #[trigger] self.records[i].allocation_handle == handle
    }

    /// The table after a mapping was recorded under the next handle.
    pub open spec fn record(
        self,
        allocation_handle: AllocationHandle,
        address: hv_ipa_t,
        size: usize,
        permission: MemoryPermission,
    ) -> Self {
        MappingTable {
            records: self.records.push(
                VirtualMachineMapping {
                    allocation_handle,
                    mapping_handle: self.next_handle(),
                    address,
                    size,
                    permission,
                },
            ),
            issued: self.issued + 1,
        }
    }

    /// The table after the permission of `handle` was replaced.
    pub open spec fn update_permission(
        self,
        handle: MappingHandle,
        permission: MemoryPermission,
    ) -> Self {
        MappingTable {
            records: self.records.update(
                self.index_of(handle),
                self.records[self.index_of(handle)].with_permission(permission),
            ),
            issued: self.issued,
        }
    }

    /// The table after the record of `handle` was removed. The handle is gone for good: the
    /// count of issued handles does not go back.
    pub open spec fn remove(self, handle: MappingHandle) -> Self {
        MappingTable { records: self.records.remove(self.index_of(handle)), issued: self.issued }
    }

    /// In a well-formed table a handle stands at one place only, so `index_of` is that place.
    pub proof fn lemma_index_of(self, index: int)
        requires
            self.wf(),
            0 <= index < self.records.len(),
        ensures
            self.contains(self.records[index].mapping_handle),
            self.index_of(self.records[index].mapping_handle) == index,
            self.get(self.records[index].mapping_handle) == Ok::<
                VirtualMachineMapping,
                HypervisorError,
            >(self.records[index]),
    {
        let handle = self.records[index].mapping_handle;
        assert(self.contains(handle));
        let found = self.index_of(handle);
        assert(self.records[found].mapping_handle == handle);
    }

    /// Recording keeps a table well formed, as long as a handle was left to issue.
    pub proof fn lemma_record_wf(
        self,
        allocation_handle: AllocationHandle,
        address: hv_ipa_t,
        size: usize,
        permission: MemoryPermission,
    )
        requires
            self.wf(),
            self.has_next(),
        ensures
            self.record(allocation_handle, address, size, permission).wf(),
            !self.contains(self.next_handle()),
    {
        let after = self.record(allocation_handle, address, size, permission);
        assert forall|i: int| 0 <= i < self.records.len() implies #[trigger] after.records[i]
            == self.records[i] by {}
        if self.contains(self.next_handle()) {
            let i = self.index_of(self.next_handle());
            assert(self.records[i].mapping_handle.0 <= self.issued);
        }
        assert forall|i: int, j: int|
            0 <= i < after.records.len() && 0 <= j < after.records.len() && i != j implies
            #[trigger] after.records[i].mapping_handle
            != #[trigger] after.records[j].mapping_handle by {
            if i < self.records.len() {
                assert(after.records[i] == self.records[i]);
            }
            if j < self.records.len() {
                assert(after.records[j] == self.records[j]);
            }
        }
    }

    /// Replacing a permission keeps a table well formed, and keeps every handle where it was.
    pub proof fn lemma_update_permission_wf(
        self,
        handle: MappingHandle,
        permission: MemoryPermission,
    )
        requires
            self.wf(),
            self.contains(handle),
        ensures
            self.update_permission(handle, permission).wf(),
            forall|other: MappingHandle|
                self.update_permission(handle, permission).contains(other) == self.contains(other),
            forall|other: MappingHandle|
                self.contains(other) ==> self.update_permission(handle, permission).index_of(other)
                    == self.index_of(other),
    {
        let after = self.update_permission(handle, permission);
        let at = self.index_of(handle);
        assert forall|i: int| 0 <= i < self.records.len() implies (
        #[trigger] after.records[i]).mapping_handle == self.records[i].mapping_handle by {}
        assert forall|i: int, j: int|
            0 <= i < after.records.len() && 0 <= j < after.records.len() && i != j implies
            #[trigger] after.records[i].mapping_handle
            != #[trigger] after.records[j].mapping_handle by {
            assert(after.records[i].mapping_handle == self.records[i].mapping_handle);
            assert(after.records[j].mapping_handle == self.records[j].mapping_handle);
        }
        assert(after.wf());
        assert forall|other: MappingHandle| after.contains(other) == self.contains(other) by {
            if self.contains(other) {
                let i = self.index_of(other);
                assert(after.records[i].mapping_handle == other);
            }
            if after.contains(other) {
                let i = after.index_of(other);
                assert(self.records[i].mapping_handle == other);
            }
        }
        assert forall|other: MappingHandle| self.contains(other) implies after.index_of(other)
            == self.index_of(other) by {
            let i = self.index_of(other);
            assert(after.records[i].mapping_handle == other);
            after.lemma_index_of(i);
        }
    }

    /// Removing a record keeps a table well formed, makes its handle unknown and leaves the
    /// other records findable under their handles.
    pub proof fn lemma_remove_wf(self, handle: MappingHandle)
        requires
            self.wf(),
            self.contains(handle),
        ensures
            self.remove(handle).wf(),
            !self.remove(handle).contains(handle),
            forall|other: MappingHandle|
                other != handle ==> self.remove(handle).get(other) == self.get(other),
    {
        let after = self.remove(handle);
        let at = self.index_of(handle);
        let back = |i: int| if i < at { i } else { i + 1 };
        assert forall|i: int| 0 <= i < after.records.len() implies #[trigger] after.records[i]
            == self.records[back(i)] by {}
        assert forall|i: int, j: int|
            0 <= i < after.records.len() && 0 <= j < after.records.len() && i != j implies
            #[trigger] after.records[i].mapping_handle
            != #[trigger] after.records[j].mapping_handle by {
            assert(after.records[i] == self.records[back(i)]);
            assert(after.records[j] == self.records[back(j)]);
        }
        assert(after.wf()) by {
            assert forall|i: int| 0 <= i < after.records.len() implies 1 <= (
            #[trigger] after.records[i]).mapping_handle.0 <= after.issued by {
                assert(after.records[i] == self.records[back(i)]);
            }
        }
        if after.contains(handle) {
            let i = after.index_of(handle);
            assert(after.records[i] == self.records[back(i)]);
            self.lemma_index_of(back(i));
        }
        assert forall|other: MappingHandle| other != handle implies after.get(other) == self.get(
            other,
        ) by {
            if self.contains(other) {
                let i = self.index_of(other);
                let k = if i < at { i } else { i - 1 };
                assert(after.records[k] == self.records[back(k)]);
                after.lemma_index_of(k);
            }
            if after.contains(other) {
                let k = after.index_of(other);
                assert(after.records[k] == self.records[back(k)]);
                self.lemma_index_of(back(k));
            }
        }
    }
}

/// The mapping registry: records the active guest mappings and issues their handles.
#[derive(Debug)]
pub struct MappingRegistry {
    /// Counter used for mapping identifier.
    counter: Counter,
    /// List of all mappings.
    list: Vec<VirtualMachineMapping>,
}

impl View for MappingRegistry {
    type V = MappingTable;

    closed spec fn view(&self) -> MappingTable {
        MappingTable { records: self.list@, issued: self.counter@ }
    }
}

impl MappingRegistry {
    /// The registry's invariant is that of the table it holds.
    pub open spec fn wf(&self) -> bool {
        self@.wf()
    }

    /// An empty registry.
    pub fn new() -> (registry: Self)
        ensures
            registry.wf(),
            registry@ == MappingTable::empty(),
    {
        MappingRegistry { counter: Counter::default(), list: Vec::new() }
    }

    /// Whether a further handle can be issued, that is, whether a further mapping can be
    /// recorded.
    pub fn has_next(&self) -> (left: bool)
        ensures
            left == self@.has_next(),
    {
        self.counter.has_next_value()
    }

    /// The number of handles issued fits the counter.
    pub proof fn lemma_issued_fits(&self)
        ensures
            self@.issued <= u64::MAX,
    {
        self.counter.lemma_view_fits();
    }

    /// Find a mapping by handle: its place in the list, or `InvalidHandle` if no active mapping
    /// goes by it.
    pub fn find_mapping_by_handle(&self, handle: MappingHandle) -> (found: Result<
        usize,
        HypervisorError,
    >)
        requires
            self.wf(),
        ensures
            match found {
                Ok(index) => self@.contains(handle) && index == self@.index_of(handle),
                Err(error) => error == HypervisorError::InvalidHandle && !self@.contains(handle),
            },
    {
        let mut index: usize = 0;
        while index < self.list.len()
            invariant
                self.wf(),
                index <= self.list@.len(),
                forall|i: int|
                    0 <= i < index ==> (#[trigger] self.list@[i]).mapping_handle != handle,
            decreases self.list@.len() - index,
        {
            if self.list[index].mapping_handle == handle {
                proof {
                    self@.lemma_index_of(index as int);
                }
                return Ok(index);
            }
            index += 1;
        }
        Err(HypervisorError::InvalidHandle)
    }

    /// Insert a new record and return its fresh handle.
    pub fn record(
        &mut self,
        allocation_handle: AllocationHandle,
        guest_address: hv_ipa_t,
        size: usize,
        permission: MemoryPermission,
    ) -> (handle: MappingHandle)
        requires
            old(self).wf(),
            old(self)@.has_next(),
        ensures
            final(self).wf(),
            handle == old(self)@.next_handle(),
            final(self)@ == old(self)@.record(allocation_handle, guest_address, size, permission),
    {
        let mapping_handle = MappingHandle(self.counter.get_next_value());
        let virtual_mapping = VirtualMachineMapping {
            allocation_handle,
            mapping_handle,
            address: guest_address,
            size,
            permission,
        };
        self.list.push(virtual_mapping);
        proof {
            old(self)@.lemma_record_wf(allocation_handle, guest_address, size, permission);
        }
        mapping_handle
    }

    /// Replace the stored permission of a mapping; `InvalidHandle` if there is none.
    pub fn update_permission(
        &mut self,
        handle: MappingHandle,
        permission: MemoryPermission,
    ) -> (result: Result<(), HypervisorError>)
        requires
            old(self).wf(),
        ensures
            final(self).wf(),
            result == old(self)@.known(handle),
            match result {
                Ok(()) => final(self)@ == old(self)@.update_permission(handle, permission),
                Err(_) => *final(self) == *old(self),
            },
    {
        let index = match self.find_mapping_by_handle(handle) {
            Ok(index) => index,
            Err(error) => { return Err(error); },
        };
        let mut mapping = self.list[index];
        mapping.permission = permission;
        self.list[index] = mapping;
        proof {
            old(self)@.lemma_update_permission_wf(handle, permission);
        }
        Ok(())
    }

    /// Delete the record of a mapping; `InvalidHandle` if there is none.
    pub fn remove(&mut self, handle: MappingHandle) -> (result: Result<(), HypervisorError>)
        requires
            old(self).wf(),
        ensures
            final(self).wf(),
            result == old(self)@.known(handle),
            match result {
                Ok(()) => final(self)@ == old(self)@.remove(handle),
                Err(_) => *final(self) == *old(self),
            },
    {
        let index = match self.find_mapping_by_handle(handle) {
            Ok(index) => index,
            Err(error) => { return Err(error); },
        };
        self.list.remove(index);
        proof {
            old(self)@.lemma_remove_wf(handle);
        }
        Ok(())
    }

    /// Check if the given allocation handle is referenced by an active mapping.
    pub fn is_allocation_referenced(&self, handle: AllocationHandle) -> (referenced: bool)
        ensures
            referenced == self@.references(handle),
    {
        let mut index: usize = 0;
        while index < self.list.len()
            invariant
                index <= self.list@.len(),
                forall|i: int|
                    0 <= i < index ==> (#[trigger] self.list@[i]).allocation_handle != handle,
            decreases self.list@.len() - index,
        {
            if self.list[index].allocation_handle == handle {
                assert(self@.records[index as int].allocation_handle == handle);
                return true;
            }
            index += 1;
        }
        false
    }

    /// The record of a mapping, by value; `InvalidHandle` if there is none.
    pub fn get(&self, handle: MappingHandle) -> (result: Result<
        VirtualMachineMapping,
        HypervisorError,
    >)
        requires
            self.wf(),
        ensures
            result == self@.get(handle),
    {
        match self.find_mapping_by_handle(handle) {
            Ok(index) => Ok(self.list[index]),
            Err(error) => Err(error),
        }
    }

    /// All records, by value, oldest first.
    pub fn get_all(&self) -> (records: Vec<VirtualMachineMapping>)
        ensures
            records@ == self@.records,
    {
        let mut records: Vec<VirtualMachineMapping> = Vec::new();
        let mut index: usize = 0;
        while index < self.list.len()
            invariant
                index <= self.list@.len(),
                records@ == self.list@.subrange(0, index as int),
            decreases self.list@.len() - index,
        {
            records.push(self.list[index]);
            index += 1;
        }
        assert(self.list@.subrange(0, self.list@.len() as int) =~= self.list@);
        records
    }
}

} // verus!
