//! The Virtual Machine controller: the two registries, and the rules that tie them together.
use vstd::prelude::*;

use crate::allocation::{page_padded, page_round_up, zeroed, AllocationRegistry, AllocationTable};
use crate::backend::{is_vcpus_exit, vcpus_exit_call, BackendCall};
use crate::error::{convert_hv_return, error_of_status, status_result, HypervisorError};
use crate::ffi::types::{
    hv_ipa_t, hv_memory_flags_t, hv_return_t, hv_vcpu_config_t, hv_vcpu_t, hv_vm_config_t,
    HV_SUCCESS,
};
use crate::handle::{AllocationHandle, MappingHandle};
use crate::mapping::{MappingRegistry, MappingTable, VirtualMachineMapping};
use crate::permission::MemoryPermission;
use crate::vcpu::{VirtualCpu, VirtualCpuConfiguration};

verus! {

/// Represent the configuration of a Virtual Machine.
#[derive(Debug)]
pub struct VirtualMachineConfiguration {
    /// The inner configuration opaque type.
    pub handle: hv_vm_config_t,
}

impl VirtualMachineConfiguration {
    /// Create a new Virtual Machine configuration instance.
    ///
    /// The backend offers nothing to configure yet: the handle is null.
    pub fn new() -> (configuration: Result<Self, HypervisorError>)
        ensures
            configuration matches Ok(c) && c.handle == 0,
    {
        Ok(VirtualMachineConfiguration { handle: 0 })
    }
}

/// The state of a Virtual Machine controller, as mathematics: what its two registries hold.
pub struct MachineState {
    /// The live allocations.
    pub allocations: AllocationTable,
    /// The active mappings.
    pub mappings: MappingTable,
}

impl MachineState {
    /// The state of a controller that was just created.
    pub open spec fn empty() -> Self {
        MachineState { allocations: AllocationTable::empty(), mappings: MappingTable::empty() }
    }

    /// Both tables are well formed, and no mapping dangles.
    pub open spec fn wf(self) -> bool {
        &&& self.allocations.wf()
        &&& self.mappings.wf()
        &&& self.no_mapping_dangles()
    }

    /// The state after a region holding `bytes` was allocated.
    pub open spec fn allocate(self, bytes: Seq<u8>) -> Self {
        MachineState { allocations: self.allocations.allocate(bytes), ..self }
    }

    /// What deallocating `handle` answers: an unknown handle is refused, and so is one that a
    /// mapping still exposes.
    pub open spec fn deallocate_result(self, handle: AllocationHandle) -> Result<
        (),
        HypervisorError,
    > {
        self.allocations.deallocate_result(handle, self.mappings.references(handle))
    }

    /// The state after deallocating `handle`: without the allocation if that was granted,
    /// unchanged if it was refused.
    pub open spec fn deallocate(self, handle: AllocationHandle) -> Self {
        MachineState {
            allocations: self.allocations.deallocate(handle, self.mappings.references(handle)),
            ..self
        }
    }

    /// The state after the region of `handle` was overwritten with `bytes`.
    pub open spec fn write(self, handle: AllocationHandle, bytes: Seq<u8>) -> Self {
        MachineState { allocations: self.allocations.write(handle, bytes), ..self }
    }

    /// The backend call that maps `handle` at `address`, or `InvalidHandle` if there is no such
    /// allocation. The call covers the whole region.
    pub open spec fn map_call(
        self,
        handle: AllocationHandle,
        address: hv_ipa_t,
        permission: MemoryPermission,
    ) -> Result<BackendCall, HypervisorError> {
        if self.allocations.contains(handle) {
            Ok(
                BackendCall::VmMap {
                    allocation: handle,
                    ipa: address,
                    size: self.allocations.regions[handle].len() as usize,
                    flags: permission.flags(),
                },
            )
        } else {
            Err(HypervisorError::InvalidHandle)
        }
    }

    /// What mapping answers once the backend has answered `status`.
    pub open spec fn map_result(self, handle: AllocationHandle, status: hv_return_t) -> Result<
        MappingHandle,
        HypervisorError,
    > {
        if !self.allocations.contains(handle) {
            Err(HypervisorError::InvalidHandle)
        } else if status != HV_SUCCESS {
            Err(error_of_status(status))
        } else {
            Ok(self.mappings.next_handle())
        }
    }

    /// The state after mapping: with the new record if the backend accepted the mapping,
    /// unchanged in every other case.
    pub open spec fn map(
        self,
        handle: AllocationHandle,
        address: hv_ipa_t,
        permission: MemoryPermission,
        status: hv_return_t,
    ) -> Self {
        if self.map_result(handle, status) is Ok {
            MachineState {
                mappings: self.mappings.record(
                    handle,
                    address,
                    self.allocations.regions[handle].len() as usize,
                    permission,
                ),
                ..self
            }
        } else {
            self
        }
    }

    /// The backend call that unmaps `handle`, or `InvalidHandle` if there is no such mapping.
    /// The call covers the exact guest range of the mapping.
    pub open spec fn unmap_call(self, handle: MappingHandle) -> Result<
        BackendCall,
        HypervisorError,
    > {
        match self.mappings.get(handle) {
            Ok(mapping) => Ok(BackendCall::VmUnmap { ipa: mapping.address, size: mapping.size }),
            Err(error) => Err(error),
        }
    }

    /// What an operation on the mapping `handle` answers once the backend has answered `status`.
    pub open spec fn mapping_result(self, handle: MappingHandle, status: hv_return_t) -> Result<
        (),
        HypervisorError,
    > {
        if !self.mappings.contains(handle) {
            Err(HypervisorError::InvalidHandle)
        } else {
            status_result(status)
        }
    }

    /// The state after unmapping: without the record if the backend accepted, unchanged in
    /// every other case.
    pub open spec fn unmap(self, handle: MappingHandle, status: hv_return_t) -> Self {
        if self.mapping_result(handle, status) is Ok {
            MachineState { mappings: self.mappings.remove(handle), ..self }
        } else {
            self
        }
    }

    /// The backend call that changes the permission of `handle`, or `InvalidHandle` if there is
    /// no such mapping.
    pub open spec fn reprotect_call(
        self,
        handle: MappingHandle,
        permission: MemoryPermission,
    ) -> Result<BackendCall, HypervisorError> {
        match self.mappings.get(handle) {
            Ok(mapping) => Ok(
                BackendCall::VmProtect {
                    ipa: mapping.address,
                    size: mapping.size,
                    flags: permission.flags(),
                },
            ),
            Err(error) => Err(error),
        }
    }

    /// The state after reprotecting: with the stored permission replaced if the backend
    /// accepted, unchanged in every other case.
    pub open spec fn reprotect(
        self,
        handle: MappingHandle,
        permission: MemoryPermission,
        status: hv_return_t,
    ) -> Self {
        if self.mapping_result(handle, status) is Ok {
            MachineState { mappings: self.mappings.update_permission(handle, permission), ..self }
        } else {
            self
        }
    }

    /// Whether no mapping dangles: each exposes a live allocation.
    pub open spec fn no_mapping_dangles(self) -> bool {
        forall|i: int|
            0 <= i < self.mappings.records.len() ==> self.allocations.contains(
                (#[trigger] self.mappings.records[i]).allocation_handle,
            )
    }

    /// Allocating keeps a state well formed, as long as a handle was left to issue.
    pub proof fn lemma_allocate_wf(self, bytes: Seq<u8>)
        requires
            self.wf(),
            self.allocations.has_next(),
        ensures
            self.allocate(bytes).wf(),
            !self.allocations.contains(self.allocations.next_handle()),
    {
    }

    /// Deallocating keeps a state well formed, whether it is granted or refused.
    pub proof fn lemma_deallocate_wf(self, handle: AllocationHandle)
        requires
            self.wf(),
        ensures
            self.deallocate(handle).wf(),
    {
        let after = self.deallocate(handle);
        if self.deallocate_result(handle) is Ok {
            assert forall|i: int|
                0 <= i < after.mappings.records.len() implies after.allocations.contains(
                (#[trigger] after.mappings.records[i]).allocation_handle,
            ) by {
                assert(self.mappings.records[i].allocation_handle != handle);
            }
        }
    }

    /// Overwriting a live region keeps a state well formed.
    pub proof fn lemma_write_wf(self, handle: AllocationHandle, bytes: Seq<u8>)
        requires
            self.wf(),
            self.allocations.contains(handle),
        ensures
            self.write(handle, bytes).wf(),
    {
    }

    /// Mapping keeps a state well formed, whatever the backend answered, as long as a handle
    /// was left to issue where one is issued.
    pub proof fn lemma_map_wf(
        self,
        handle: AllocationHandle,
        address: hv_ipa_t,
        permission: MemoryPermission,
        status: hv_return_t,
    )
        requires
            self.wf(),
            self.map_result(handle, status) is Ok ==> self.mappings.has_next(),
        ensures
            self.map(handle, address, permission, status).wf(),
    {
        let after = self.map(handle, address, permission, status);
        if self.map_result(handle, status) is Ok {
            let size = self.allocations.regions[handle].len() as usize;
            self.mappings.lemma_record_wf(handle, address, size, permission);
            assert forall|i: int|
                0 <= i < after.mappings.records.len() implies after.allocations.contains(
                (#[trigger] after.mappings.records[i]).allocation_handle,
            ) by {
                if i < self.mappings.records.len() {
                    assert(after.mappings.records[i] == self.mappings.records[i]);
                }
            }
        }
    }

    /// Unmapping keeps a state well formed, whatever the backend answered.
    pub proof fn lemma_unmap_wf(self, handle: MappingHandle, status: hv_return_t)
        requires
            self.wf(),
        ensures
            self.unmap(handle, status).wf(),
    {
        let after = self.unmap(handle, status);
        if self.mapping_result(handle, status) is Ok {
            self.mappings.lemma_remove_wf(handle);
            let at = self.mappings.index_of(handle);
            assert forall|i: int|
                0 <= i < after.mappings.records.len() implies after.allocations.contains(
                (#[trigger] after.mappings.records[i]).allocation_handle,
            ) by {
                let k = if i < at { i } else { i + 1 };
                assert(after.mappings.records[i] == self.mappings.records[k]);
            }
        }
    }

    /// Reprotecting keeps a state well formed, whatever the backend answered.
    pub proof fn lemma_reprotect_wf(
        self,
        handle: MappingHandle,
        permission: MemoryPermission,
        status: hv_return_t,
    )
        requires
            self.wf(),
        ensures
            self.reprotect(handle, permission, status).wf(),
    {
        let after = self.reprotect(handle, permission, status);
        if self.mapping_result(handle, status) is Ok {
            self.mappings.lemma_update_permission_wf(handle, permission);
            assert forall|i: int|
                0 <= i < after.mappings.records.len() implies after.allocations.contains(
                (#[trigger] after.mappings.records[i]).allocation_handle,
            ) by {
                assert(after.mappings.records[i].allocation_handle
                    == self.mappings.records[i].allocation_handle);
            }
        }
    }

    /// The calls that take the machine down: one unmap for each active mapping, then the
    /// destruction of the VM.
    pub open spec fn teardown_calls(self) -> Seq<BackendCall> {
        Seq::new(
            self.mappings.records.len(),
            |i: int|
                BackendCall::VmUnmap {
                    ipa: self.mappings.records[i].address,
                    size: self.mappings.records[i].size,
                },
        ).push(BackendCall::VmDestroy)
    }
}

/// Represent the instance of a Virtual Machine.
#[derive(Debug)]
pub struct VirtualMachine {
    /// The allocations and the counter used for their identifiers.
    allocations: AllocationRegistry,
    /// The mappings and the counter used for their identifiers.
    mappings: MappingRegistry,
}

impl View for VirtualMachine {
    type V = MachineState;

    closed spec fn view(&self) -> MachineState {
        MachineState { allocations: self.allocations@, mappings: self.mappings@ }
    }
}

impl VirtualMachine {
    /// The controller's invariant: both registries are well formed and so is the state they
    /// hold. Every operation keeps it.
    pub closed spec fn wf(&self) -> bool {
        &&& self.allocations.wf()
        &&& self.mappings.wf()
        &&& self@.wf()
    }

    /// A well-formed controller holds a well-formed state, and has not issued more handles than
    /// a counter can count.
    pub proof fn lemma_wf_view(&self)
        requires
            self.wf(),
        ensures
            self@.wf(),
            self@.allocations.issued <= u64::MAX,
            self@.mappings.issued <= u64::MAX,
    {
        self.allocations.lemma_wf_view();
        self.mappings.lemma_issued_fits();
    }

    /// The backend call that creates the VM for `config`.
    pub fn new_call(config: &Option<VirtualMachineConfiguration>) -> (call: BackendCall)
        ensures
            call == (BackendCall::VmCreate {
                vm_config: match *config {
                    Some(c) => c.handle,
                    None => 0,
                },
            }),
    {
        let handle: hv_vm_config_t = match config {
            Some(value) => value.handle,
            None => 0,
        };
        BackendCall::VmCreate { vm_config: handle }
    }

    /// Create a new Virtual Machine instance, given the backend's answer to
    /// [`new_call`](Self::new_call).
    ///
    /// **There should be only one instance living in the same process.**
    #[allow(unused_variables)]
    pub fn new(
        config: Option<VirtualMachineConfiguration>,
        status: hv_return_t,
    ) -> (machine: Result<Self, HypervisorError>)
        ensures
            match machine {
                Ok(vm) => status == HV_SUCCESS && vm.wf() && vm@ == MachineState::empty(),
                Err(error) => status != HV_SUCCESS && error == error_of_status(status),
            },
    {
        match convert_hv_return(status) {
            Ok(()) => {
                let machine = VirtualMachine {
                    allocations: AllocationRegistry::new(),
                    mappings: MappingRegistry::new(),
                };
                Ok(machine)
            },
            Err(error) => Err(error),
        }
    }

    /// Whether a further allocation handle can be issued. [`allocate`](Self::allocate) and
    /// [`allocate_from`](Self::allocate_from) ask for it.
    pub fn has_next_allocation_handle(&self) -> (left: bool)
        ensures
            left == self@.allocations.has_next(),
    {
        self.allocations.has_next()
    }

    /// Whether a further mapping handle can be issued. [`map`](Self::map) asks for it where it
    /// records a mapping.
    pub fn has_next_mapping_handle(&self) -> (left: bool)
        ensures
            left == self@.mappings.has_next(),
    {
        self.mappings.has_next()
    }

    /// Create a new allocation that can be used in the Virtual Machine: `size` bytes rounded up
    /// to the page size, all zero.
    ///
    /// Fails with `NoResources`, and changes nothing, when the host cannot provide the memory;
    /// it never can when the rounded size does not fit the address space, and it always can
    /// when nothing is asked for. The backend is not involved.
    pub fn allocate(&mut self, size: usize) -> (result: Result<AllocationHandle, HypervisorError>)
        requires
            old(self).wf(),
            old(self)@.allocations.has_next(),
        ensures
            final(self).wf(),
            match result {
                Ok(handle) => handle == old(self)@.allocations.next_handle() && final(self)@ == old(
                    self,
                )@.allocate(zeroed(page_round_up(size as nat))),
                Err(error) => error == HypervisorError::NoResources && *final(self) == *old(self),
            },
            page_round_up(size as nat) > usize::MAX ==> result is Err,
            size == 0 ==> result is Ok,
    {
        let result = self.allocations.allocate(size);
        proof {
            old(self)@.lemma_allocate_wf(zeroed(page_round_up(size as nat)));
        }
        result
    }

    /// Create a new allocation from data that can be used in the Virtual Machine: as
    /// [`allocate`](Self::allocate) with the length of `source`, with `source` at the start of
    /// the region and zeroes in what is left of the last page.
    pub fn allocate_from(&mut self, source: &[u8]) -> (result: Result<
        AllocationHandle,
        HypervisorError,
    >)
        requires
            old(self).wf(),
            old(self)@.allocations.has_next(),
        ensures
            final(self).wf(),
            match result {
                Ok(handle) => handle == old(self)@.allocations.next_handle() && final(self)@ == old(
                    self,
                )@.allocate(page_padded(source@)),
                Err(error) => error == HypervisorError::NoResources && *final(self) == *old(self),
            },
            page_round_up(source@.len()) > usize::MAX ==> result is Err,
            source@.len() == 0 ==> result is Ok,
    {
        let result = self.allocations.allocate_from(source);
        proof {
            old(self)@.lemma_allocate_wf(page_padded(source@));
        }
        result
    }

    /// Check if the given allocation handle is mapped.
    pub fn is_allocation_mapped(&self, handle: AllocationHandle) -> (mapped: bool)
        ensures
            mapped == self@.mappings.references(handle),
    {
        self.mappings.is_allocation_referenced(handle)
    }

    /// Destroy an allocation from the Virtual Machine.
    ///
    /// **All references to this allocation should be unmapped first**: an allocation that a
    /// mapping still exposes is refused with `AllocationStillMapped`, an unknown handle with
    /// `InvalidHandle`, and neither changes anything.
    pub fn deallocate(&mut self, allocation_handle: AllocationHandle) -> (result: Result<
        (),
        HypervisorError,
    >)
        requires
            old(self).wf(),
        ensures
            final(self).wf(),
            result == old(self)@.deallocate_result(allocation_handle),
            final(self)@ == old(self)@.deallocate(allocation_handle),
            result is Err ==> *final(self) == *old(self),
    {
        let result = self.allocations.deallocate(allocation_handle, &self.mappings);
        proof {
            old(self)@.lemma_deallocate_wf(allocation_handle);
        }
        result
    }

    /// Gets a slice to an allocation with its handle: the whole region, rounding included.
    pub fn get_allocation_slice(&self, allocation_handle: AllocationHandle) -> (result: Result<
        &[u8],
        HypervisorError,
    >)
        requires
            self.wf(),
        ensures
            match result {
                Ok(slice) => self@.allocations.slice(allocation_handle) == Ok::<
                    Seq<u8>,
                    HypervisorError,
                >(slice@),
                Err(error) => self@.allocations.slice(allocation_handle) == Err::<
                    Seq<u8>,
                    HypervisorError,
                >(error),
            },
    {
        self.allocations.get_slice(allocation_handle)
    }

    /// Gets a mutable slice to an allocation with its handle: the whole region, rounding
    /// included. What the caller leaves in the slice is what the region holds afterwards;
    /// nothing else changes.
    pub fn get_allocation_slice_mut(&mut self, allocation_handle: AllocationHandle) -> (result:
        Result<&mut [u8], HypervisorError>)
        requires
            old(self).wf(),
        ensures
            final(self).wf(),
            match result {
                Ok(slice) => old(self)@.allocations.slice(allocation_handle) == Ok::<
                    Seq<u8>,
                    HypervisorError,
                >(slice@) && final(self)@ == old(self)@.write(allocation_handle, final(slice)@),
                Err(error) => old(self)@.allocations.slice(allocation_handle) == Err::<
                    Seq<u8>,
                    HypervisorError,
                >(error) && *final(self) == *old(self),
            },
    {
        self.allocations.get_mutable_slice(allocation_handle)
    }

    /// The backend call that maps an allocation at `guest_address` with `permission`, over the
    /// whole of its backing memory; `InvalidHandle` if there is no such allocation.
    pub fn map_call(
        &self,
        allocation_handle: AllocationHandle,
        guest_address: hv_ipa_t,
        permission: MemoryPermission,
    ) -> (call: Result<BackendCall, HypervisorError>)
        requires
            self.wf(),
        ensures
            call == self@.map_call(allocation_handle, guest_address, permission),
    {
        let allocation_size = match self.allocations.get_slice(allocation_handle) {
            Ok(slice) => slice.len(),
            Err(error) => { return Err(error); },
        };
        Ok(
            BackendCall::VmMap {
                allocation: allocation_handle,
                ipa: guest_address,
                size: allocation_size,
                flags: hv_memory_flags_t::from(permission),
            },
        )
    }

    /// Map an allocation in the Virtual Machine, given the backend's answer to
    /// [`map_call`](Self::map_call).
    ///
    /// An unknown allocation is refused with `InvalidHandle` whatever the backend said. When
    /// the backend failed, its error is returned, nothing is recorded and no handle is used up.
    /// When it succeeded, the mapping is recorded, as large as the allocation is now, and its
    /// fresh handle returned.
    pub fn map(
        &mut self,
        allocation_handle: AllocationHandle,
        guest_address: hv_ipa_t,
        permission: MemoryPermission,
        status: hv_return_t,
    ) -> (result: Result<MappingHandle, HypervisorError>)
        requires
            old(self).wf(),
            old(self)@.map_result(allocation_handle, status) is Ok ==> old(
                self,
            )@.mappings.has_next(),
        ensures
            final(self).wf(),
            result == old(self)@.map_result(allocation_handle, status),
            final(self)@ == old(self)@.map(allocation_handle, guest_address, permission, status),
            result is Err ==> *final(self) == *old(self),
    {
        let allocation_size = match self.allocations.get_slice(allocation_handle) {
            Ok(slice) => slice.len(),
            Err(error) => { return Err(error); },
        };

        // Ensure no error got reported
        match convert_hv_return(status) {
            Ok(()) => {},
            Err(error) => { return Err(error); },
        }
        let mapping_handle = self.mappings.record(
            allocation_handle,
            guest_address,
            allocation_size,
            permission,
        );
        proof {
            old(self)@.lemma_map_wf(allocation_handle, guest_address, permission, status);
        }
        Ok(mapping_handle)
    }

    /// The backend call that unmaps a mapping, over its exact guest range; `InvalidHandle` if
    /// there is no such mapping.
    pub fn unmap_call(&self, mapping_handle: MappingHandle) -> (call: Result<
        BackendCall,
        HypervisorError,
    >)
        requires
            self.wf(),
        ensures
            call == self@.unmap_call(mapping_handle),
    {
        match self.mappings.get(mapping_handle) {
            Ok(mapping) => Ok(BackendCall::VmUnmap { ipa: mapping.address, size: mapping.size }),
            Err(error) => Err(error),
        }
    }

    /// Unmap a given mapping in the Virtual Machine, given the backend's answer to
    /// [`unmap_call`](Self::unmap_call).
    ///
    /// An unknown mapping is refused with `InvalidHandle` whatever the backend said. When the
    /// backend failed, its error is returned and the record stays. When it succeeded, the
    /// record is removed.
    pub fn unmap(&mut self, mapping_handle: MappingHandle, status: hv_return_t) -> (result: Result<
        (),
        HypervisorError,
    >)
        requires
            old(self).wf(),
        ensures
            final(self).wf(),
            result == old(self)@.mapping_result(mapping_handle, status),
            final(self)@ == old(self)@.unmap(mapping_handle, status),
            result is Err ==> *final(self) == *old(self),
    {
        match self.mappings.find_mapping_by_handle(mapping_handle) {
            Ok(_) => {},
            Err(error) => { return Err(error); },
        }

        // Ensure no error got reported
        match convert_hv_return(status) {
            Ok(()) => {},
            Err(error) => { return Err(error); },
        }
        let result = self.mappings.remove(mapping_handle);
        proof {
            old(self)@.lemma_unmap_wf(mapping_handle, status);
        }
        result
    }

    /// The backend call that changes the permission of a mapping, over its exact guest range;
    /// `InvalidHandle` if there is no such mapping.
    pub fn reprotect_call(
        &self,
        mapping_handle: MappingHandle,
        permission: MemoryPermission,
    ) -> (call: Result<BackendCall, HypervisorError>)
        requires
            self.wf(),
        ensures
            call == self@.reprotect_call(mapping_handle, permission),
    {
        match self.mappings.get(mapping_handle) {
            Ok(mapping) => Ok(
                BackendCall::VmProtect {
                    ipa: mapping.address,
                    size: mapping.size,
                    flags: hv_memory_flags_t::from(permission),
                },
            ),
            Err(error) => Err(error),
        }
    }

    /// Change memory permissions of a given mapping in the Virtual Machine, given the backend's
    /// answer to [`reprotect_call`](Self::reprotect_call).
    ///
    /// An unknown mapping is refused with `InvalidHandle` whatever the backend said. When the
    /// backend failed, its error is returned and the stored permission stays. When it
    /// succeeded, the stored permission is replaced and nothing else is.
    pub fn reprotect(
        &mut self,
        mapping_handle: MappingHandle,
        permission: MemoryPermission,
        status: hv_return_t,
    ) -> (result: Result<(), HypervisorError>)
        requires
            old(self).wf(),
        ensures
            final(self).wf(),
            result == old(self)@.mapping_result(mapping_handle, status),
            final(self)@ == old(self)@.reprotect(mapping_handle, permission, status),
            result is Err ==> *final(self) == *old(self),
    {
        match self.mappings.find_mapping_by_handle(mapping_handle) {
            Ok(_) => {},
            Err(error) => { return Err(error); },
        }

        // Ensure no error got reported
        match convert_hv_return(status) {
            Ok(()) => {},
            Err(error) => { return Err(error); },
        }
        let result = self.mappings.update_permission(mapping_handle, permission);
        proof {
            old(self)@.lemma_reprotect_wf(mapping_handle, permission, status);
        }
        result
    }

    /// The backend call that creates a vCPU configuration.
    pub fn create_vcpu_configuration_call(&self) -> (call: BackendCall)
        ensures
            call == BackendCall::VcpuConfigCreate,
    {
        BackendCall::VcpuConfigCreate
    }

    /// Create a new vCPU configuration around the object that the backend returned for
    /// [`create_vcpu_configuration_call`](Self::create_vcpu_configuration_call).
    pub fn create_vcpu_configuration(&self, handle: hv_vcpu_config_t) -> (configuration:
        VirtualCpuConfiguration)
        ensures
            configuration.handle() == handle,
    {
        VirtualCpuConfiguration::new(handle)
    }

    /// The backend call that creates a vCPU for the calling thread, with `config` or, without
    /// one, with the default configuration.
    pub fn create_vcpu_call(&self, config: Option<&VirtualCpuConfiguration>) -> (call: BackendCall)
        ensures
            call == (BackendCall::VcpuCreate {
                config: match config {
                    Some(c) => c.handle(),
                    None => 0,
                },
            }),
    {
        let handle: hv_vcpu_config_t = match config {
            Some(value) => value.get_handle(),
            None => 0,
        };
        BackendCall::VcpuCreate { config: handle }
    }

    /// Create a new vCPU, given the backend's answer to
    /// [`create_vcpu_call`](Self::create_vcpu_call): its status and the handle it gave the vCPU.
    ///
    /// **This should be called in the thread that will run the vCPU as it's resident inside it.**
    #[allow(unused_variables)]
    pub fn create_vcpu(
        &mut self,
        config: Option<&mut VirtualCpuConfiguration>,
        status: hv_return_t,
        vcpu_handle: hv_vcpu_t,
    ) -> (vcpu: Result<VirtualCpu, HypervisorError>)
        ensures
            match vcpu {
                Ok(cpu) => status == HV_SUCCESS && cpu.handle() == vcpu_handle,
                Err(error) => status != HV_SUCCESS && error == error_of_status(status),
            },
            *final(self) == *old(self),
            config matches Some(c) ==> *final(c) == *c,
    {
        match convert_hv_return(status) {
            Ok(()) => Ok(VirtualCpu::new(vcpu_handle)),
            Err(error) => Err(error),
        }
    }

    /// The backend call that forces the given vCPUs out of their run. It may be made from any
    /// thread.
    pub fn exit_vcpus_call(&self, vcpus: &[hv_vcpu_t]) -> (call: BackendCall)
        ensures
            is_vcpus_exit(call, vcpus@, (vcpus@.len() % 0x1_0000_0000) as u32),
    {
        vcpus_exit_call(vcpus)
    }

    /// Exits given vCPUs.
    ///
    /// `status` is the backend's answer to [`exit_vcpus_call`](Self::exit_vcpus_call): success,
    /// or the error it names.
    #[allow(unused_variables)]
    pub fn exit_vcpus(&mut self, vcpus: &[hv_vcpu_t], status: hv_return_t) -> (result: Result<
        (),
        HypervisorError,
    >)
        ensures
            result == status_result(status),
            *final(self) == *old(self),
    {
        convert_hv_return(status)
    }

    /// Gets the information about a mapping from its handle, by value.
    pub fn get_mapping_info(&self, mapping_handle: MappingHandle) -> (info: Result<
        VirtualMachineMapping,
        HypervisorError,
    >)
        requires
            self.wf(),
        ensures
            info == self@.mappings.get(mapping_handle),
    {
        self.mappings.get(mapping_handle)
    }

    /// Get a list of all mapping informations, by value, oldest first.
    pub fn get_all_mapping_infos(&self) -> (infos: Vec<VirtualMachineMapping>)
        ensures
            infos@ == self@.mappings.records,
    {
        self.mappings.get_all()
    }

    /// The calls that take the machine down, in order: one unmap for each mapping that is still
    /// active, then the destruction of the VM. They are due when the controller goes away, and
    /// a failure of any of them is fatal.
    pub fn teardown_calls(&self) -> (calls: Vec<BackendCall>)
        ensures
            calls@ == self@.teardown_calls(),
    {
        let mappings = self.get_all_mapping_infos();
        let mut calls: Vec<BackendCall> = Vec::new();
        let mut index: usize = 0;
        while index < mappings.len()
            invariant
                index <= mappings@.len(),
                calls@.len() == index,
                forall|i: int|
                    0 <= i < index ==> #[trigger] calls@[i] == (BackendCall::VmUnmap {
                        ipa: mappings@[i].address,
                        size: mappings@[i].size,
                    }),
            decreases mappings@.len() - index,
        {
            let mapping = mappings[index];
            calls.push(BackendCall::VmUnmap { ipa: mapping.address, size: mapping.size });
            index += 1;
        }
        calls.push(BackendCall::VmDestroy);
        assert(calls@ =~= self@.teardown_calls());
        calls
    }
}

} // verus!
