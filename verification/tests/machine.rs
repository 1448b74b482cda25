use ahv::ffi::types::{
    hv_return_t, HV_BAD_ARGUMENT, HV_BUSY, HV_DENIED, HV_ERROR, HV_NO_RESOURCES, HV_SUCCESS,
    HV_UNSUPPORTED,
};
use ahv::{
    AllocationHandle, BackendCall, HypervisorError, MappingHandle, MemoryPermission,
    VirtualMachine, VirtualMachineConfiguration, VirtualMachineMapping,
};

/// A stand-in for the backend's memory calls: it keeps the guest ranges that are mapped, refuses
/// a range that overlaps one of them, and refuses to touch a range it does not know.
struct GuestSpace {
    created: bool,
    ranges: Vec<(u64, usize)>,
    calls: Vec<BackendCall>,
}

impl GuestSpace {
    fn new() -> Self {
        GuestSpace { created: false, ranges: Vec::new(), calls: Vec::new() }
    }

    fn perform(&mut self, call: BackendCall) -> hv_return_t {
        let status = match &call {
            BackendCall::VmCreate { .. } => {
                if self.created {
                    HV_BUSY
                } else {
                    self.created = true;
                    HV_SUCCESS
                }
            }
            BackendCall::VmDestroy => {
                if self.created && self.ranges.is_empty() {
                    self.created = false;
                    HV_SUCCESS
                } else {
                    HV_ERROR
                }
            }
            BackendCall::VmMap { ipa, size, .. } => {
                let start = *ipa;
                let end = start + *size as u64;
                let overlaps = self
                    .ranges
                    .iter()
                    .any(|(other, length)| start < *other + *length as u64 && *other < end);
                if overlaps {
                    HV_ERROR
                } else {
                    self.ranges.push((start, *size));
                    HV_SUCCESS
                }
            }
            BackendCall::VmUnmap { ipa, size } => {
                match self.ranges.iter().position(|range| *range == (*ipa, *size)) {
                    Some(index) => {
                        self.ranges.remove(index);
                        HV_SUCCESS
                    }
                    None => HV_BAD_ARGUMENT,
                }
            }
            BackendCall::VmProtect { ipa, size, .. } => {
                if self.ranges.contains(&(*ipa, *size)) {
                    HV_SUCCESS
                } else {
                    HV_BAD_ARGUMENT
                }
            }
            _ => HV_UNSUPPORTED,
        };
        self.calls.push(call);
        status
    }
}

fn machine(backend: &mut GuestSpace) -> VirtualMachine {
    let call = VirtualMachine::new_call(&None);
    let status = backend.perform(call);
    VirtualMachine::new(None, status).unwrap()
}

fn map(
    vm: &mut VirtualMachine,
    backend: &mut GuestSpace,
    allocation: AllocationHandle,
    address: u64,
    permission: MemoryPermission,
) -> Result<MappingHandle, HypervisorError> {
    let call = vm.map_call(allocation, address, permission)?;
    let status = backend.perform(call);
    vm.map(allocation, address, permission, status)
}

fn unmap(
    vm: &mut VirtualMachine,
    backend: &mut GuestSpace,
    mapping: MappingHandle,
) -> Result<(), HypervisorError> {
    let call = vm.unmap_call(mapping)?;
    let status = backend.perform(call);
    vm.unmap(mapping, status)
}

fn reprotect(
    vm: &mut VirtualMachine,
    backend: &mut GuestSpace,
    mapping: MappingHandle,
    permission: MemoryPermission,
) -> Result<(), HypervisorError> {
    let call = vm.reprotect_call(mapping, permission)?;
    let status = backend.perform(call);
    vm.reprotect(mapping, permission, status)
}

#[test]
fn configuration_has_a_null_handle() {
    let configuration = VirtualMachineConfiguration::new().unwrap();
    assert_eq!(configuration.handle, 0);
}

#[test]
fn creation_asks_the_backend_for_a_vm() {
    assert_eq!(VirtualMachine::new_call(&None), BackendCall::VmCreate { vm_config: 0 });
    let configuration = VirtualMachineConfiguration { handle: 0x1000 };
    assert_eq!(
        VirtualMachine::new_call(&Some(configuration)),
        BackendCall::VmCreate { vm_config: 0x1000 }
    );
}

#[test]
fn creation_succeeds_when_the_backend_does() {
    let vm = VirtualMachine::new(None, HV_SUCCESS).unwrap();
    assert!(vm.get_all_mapping_infos().is_empty());
    assert!(vm.has_next_allocation_handle());
    assert!(vm.has_next_mapping_handle());
}

#[test]
fn creation_passes_the_backend_error_on() {
    assert_eq!(VirtualMachine::new(None, HV_BUSY).err(), Some(HypervisorError::Busy));
    assert_eq!(VirtualMachine::new(None, HV_DENIED).err(), Some(HypervisorError::Denied));
    assert_eq!(
        VirtualMachine::new(VirtualMachineConfiguration::new().ok(), HV_NO_RESOURCES).err(),
        Some(HypervisorError::NoResources)
    );
    assert_eq!(VirtualMachine::new(None, 0x55).err(), Some(HypervisorError::Unknown(0x55)));
}

#[test]
fn a_second_vm_is_refused_by_the_backend() {
    let mut backend = GuestSpace::new();
    let _first = machine(&mut backend);
    let status = backend.perform(VirtualMachine::new_call(&None));
    assert_eq!(VirtualMachine::new(None, status).err(), Some(HypervisorError::Busy));
}

#[test]
fn map_then_info_then_unmap() {
    let mut backend = GuestSpace::new();
    let mut vm = machine(&mut backend);
    let allocation = vm.allocate(0x1000).unwrap();
    let mapping =
        map(&mut vm, &mut backend, allocation, 0x20000, MemoryPermission::execute()).unwrap();
    assert_eq!(
        vm.get_mapping_info(mapping),
        Ok(VirtualMachineMapping {
            allocation_handle: allocation,
            mapping_handle: mapping,
            address: 0x20000,
            size: 0x10000,
            permission: MemoryPermission::execute(),
        })
    );
    assert_eq!(unmap(&mut vm, &mut backend, mapping), Ok(()));
    assert_eq!(vm.get_mapping_info(mapping), Err(HypervisorError::InvalidHandle));
    assert!(vm.get_all_mapping_infos().is_empty());
    assert!(backend.ranges.is_empty());
}

#[test]
fn map_call_covers_the_whole_allocation() {
    let mut vm = VirtualMachine::new(None, HV_SUCCESS).unwrap();
    let allocation = vm.allocate_from(&[0u8; 0x10001]).unwrap();
    assert_eq!(
        vm.map_call(allocation, 0x8000_0000, MemoryPermission::read_write()),
        Ok(BackendCall::VmMap { allocation, ipa: 0x8000_0000, size: 0x20000, flags: 3 })
    );
    assert_eq!(
        vm.map_call(AllocationHandle(9), 0x8000_0000, MemoryPermission::read_write()),
        Err(HypervisorError::InvalidHandle)
    );
}

#[test]
fn unmap_and_reprotect_calls_cover_the_exact_guest_range() {
    let mut backend = GuestSpace::new();
    let mut vm = machine(&mut backend);
    let allocation = vm.allocate(0x30000).unwrap();
    let mapping =
        map(&mut vm, &mut backend, allocation, 0x40000, MemoryPermission::read()).unwrap();
    assert_eq!(vm.unmap_call(mapping), Ok(BackendCall::VmUnmap { ipa: 0x40000, size: 0x30000 }));
    assert_eq!(
        vm.reprotect_call(mapping, MemoryPermission::read_execute()),
        Ok(BackendCall::VmProtect { ipa: 0x40000, size: 0x30000, flags: 5 })
    );
    assert_eq!(vm.unmap_call(MappingHandle(2)), Err(HypervisorError::InvalidHandle));
    assert_eq!(
        vm.reprotect_call(MappingHandle(2), MemoryPermission::read()),
        Err(HypervisorError::InvalidHandle)
    );
}

#[test]
fn overlapping_map_is_refused_and_leaves_one_record() {
    let mut backend = GuestSpace::new();
    let mut vm = machine(&mut backend);
    let allocation = vm.allocate(0x20000).unwrap();
    let first = map(&mut vm, &mut backend, allocation, 0x20000, MemoryPermission::read()).unwrap();
    let second = map(&mut vm, &mut backend, allocation, 0x30000, MemoryPermission::read());
    assert_eq!(second, Err(HypervisorError::Error));
    let all = vm.get_all_mapping_infos();
    assert_eq!(all.len(), 1);
    assert_eq!(all[0].mapping_handle, first);
    // a range that does not overlap is accepted, under the next handle
    let third = map(&mut vm, &mut backend, allocation, 0x40000, MemoryPermission::read());
    assert_eq!(third, Ok(MappingHandle(2)));
    assert_eq!(vm.get_all_mapping_infos().len(), 2);
}

#[test]
fn failed_map_changes_nothing_and_uses_no_handle() {
    let mut vm = VirtualMachine::new(None, HV_SUCCESS).unwrap();
    let allocation = vm.allocate(1).unwrap();
    let first = vm.map(allocation, 0x10000, MemoryPermission::read(), HV_SUCCESS).unwrap();
    let before = vm.get_all_mapping_infos();
    let failures =
        [HV_ERROR, HV_BUSY, HV_BAD_ARGUMENT, HV_NO_RESOURCES, HV_DENIED, HV_UNSUPPORTED, 0x77];
    for status in failures {
        let result = vm.map(allocation, 0x20000, MemoryPermission::write(), status);
        assert_eq!(result, Err(HypervisorError::from(status)));
        assert_eq!(vm.get_all_mapping_infos(), before);
    }
    assert_eq!(first, MappingHandle(1));
    assert_eq!(
        vm.map(allocation, 0x20000, MemoryPermission::write(), HV_SUCCESS),
        Ok(MappingHandle(2))
    );
}

#[test]
fn failed_unmap_keeps_the_record() {
    let mut vm = VirtualMachine::new(None, HV_SUCCESS).unwrap();
    let allocation = vm.allocate(1).unwrap();
    let mapping = vm.map(allocation, 0x10000, MemoryPermission::read(), HV_SUCCESS).unwrap();
    let before = vm.get_all_mapping_infos();
    assert_eq!(vm.unmap(mapping, HV_BUSY), Err(HypervisorError::Busy));
    assert_eq!(vm.unmap(mapping, 0xdead), Err(HypervisorError::Unknown(0xdead)));
    assert_eq!(vm.get_all_mapping_infos(), before);
    assert_eq!(vm.deallocate(allocation), Err(HypervisorError::AllocationStillMapped));
    assert_eq!(vm.unmap(mapping, HV_SUCCESS), Ok(()));
    assert!(vm.get_all_mapping_infos().is_empty());
}

#[test]
fn failed_reprotect_keeps_the_permission() {
    let mut vm = VirtualMachine::new(None, HV_SUCCESS).unwrap();
    let allocation = vm.allocate(1).unwrap();
    let mapping = vm.map(allocation, 0x10000, MemoryPermission::read(), HV_SUCCESS).unwrap();
    let before = vm.get_all_mapping_infos();
    assert_eq!(
        vm.reprotect(mapping, MemoryPermission::read_write(), HV_DENIED),
        Err(HypervisorError::Denied)
    );
    assert_eq!(vm.get_all_mapping_infos(), before);
    assert_eq!(vm.get_mapping_info(mapping).unwrap().permission, MemoryPermission::read());
}

#[test]
fn reprotect_replaces_the_permission_only() {
    let mut backend = GuestSpace::new();
    let mut vm = machine(&mut backend);
    let allocation = vm.allocate(0x10000).unwrap();
    let other_allocation = vm.allocate(0x10000).unwrap();
    let mapping =
        map(&mut vm, &mut backend, allocation, 0x20000, MemoryPermission::read()).unwrap();
    let other =
        map(&mut vm, &mut backend, other_allocation, 0x60000, MemoryPermission::write()).unwrap();
    let before = vm.get_mapping_info(mapping).unwrap();
    let untouched = vm.get_mapping_info(other).unwrap();
    assert_eq!(reprotect(&mut vm, &mut backend, mapping, MemoryPermission::read_execute()), Ok(()));
    let after = vm.get_mapping_info(mapping).unwrap();
    assert_eq!(after.permission, MemoryPermission::read_execute());
    assert_eq!(after.allocation_handle, before.allocation_handle);
    assert_eq!(after.mapping_handle, before.mapping_handle);
    assert_eq!(after.address, before.address);
    assert_eq!(after.size, before.size);
    assert_eq!(vm.get_mapping_info(other), Ok(untouched));
}

#[test]
fn unknown_handles_are_invalid_whatever_the_backend_says() {
    let mut vm = VirtualMachine::new(None, HV_SUCCESS).unwrap();
    assert_eq!(
        vm.map(AllocationHandle(1), 0, MemoryPermission::read(), HV_SUCCESS),
        Err(HypervisorError::InvalidHandle)
    );
    assert_eq!(
        vm.map(AllocationHandle(1), 0, MemoryPermission::read(), HV_ERROR),
        Err(HypervisorError::InvalidHandle)
    );
    assert_eq!(vm.unmap(MappingHandle(1), HV_SUCCESS), Err(HypervisorError::InvalidHandle));
    assert_eq!(vm.unmap(MappingHandle(1), HV_BUSY), Err(HypervisorError::InvalidHandle));
    assert_eq!(
        vm.reprotect(MappingHandle(1), MemoryPermission::read(), HV_SUCCESS),
        Err(HypervisorError::InvalidHandle)
    );
    assert_eq!(vm.get_mapping_info(MappingHandle(1)), Err(HypervisorError::InvalidHandle));
    assert_eq!(vm.deallocate(AllocationHandle(1)), Err(HypervisorError::InvalidHandle));
    assert_eq!(
        vm.get_allocation_slice(AllocationHandle(1)).err(),
        Some(HypervisorError::InvalidHandle)
    );
    assert_eq!(
        vm.get_allocation_slice_mut(AllocationHandle(1)).err(),
        Some(HypervisorError::InvalidHandle)
    );
    // an allocation handle is no mapping handle: the namespaces are separate
    let allocation = vm.allocate(1).unwrap();
    assert_eq!(allocation, AllocationHandle(1));
    assert_eq!(vm.get_mapping_info(MappingHandle(1)), Err(HypervisorError::InvalidHandle));
    assert!(vm.get_all_mapping_infos().is_empty());
}

#[test]
fn mapped_allocation_cannot_be_deallocated() {
    let mut backend = GuestSpace::new();
    let mut vm = machine(&mut backend);
    let allocation = vm.allocate_from(&[1, 2, 3]).unwrap();
    let first = map(&mut vm, &mut backend, allocation, 0x20000, MemoryPermission::read()).unwrap();
    let second = map(&mut vm, &mut backend, allocation, 0x80000, MemoryPermission::read()).unwrap();
    assert!(vm.is_allocation_mapped(allocation));
    assert_eq!(vm.deallocate(allocation), Err(HypervisorError::AllocationStillMapped));
    assert_eq!(unmap(&mut vm, &mut backend, first), Ok(()));
    assert_eq!(vm.deallocate(allocation), Err(HypervisorError::AllocationStillMapped));
    // nothing was detached or released by the refusals
    assert_eq!(&vm.get_allocation_slice(allocation).unwrap()[..3], &[1, 2, 3]);
    assert_eq!(vm.get_all_mapping_infos().len(), 1);
    assert_eq!(unmap(&mut vm, &mut backend, second), Ok(()));
    assert!(!vm.is_allocation_mapped(allocation));
    assert_eq!(vm.deallocate(allocation), Ok(()));
    assert_eq!(vm.get_allocation_slice(allocation).err(), Some(HypervisorError::InvalidHandle));
    assert_eq!(vm.deallocate(allocation), Err(HypervisorError::InvalidHandle));
}

#[test]
fn allocate_from_then_slice_gives_the_bytes_and_a_zero_tail() {
    let mut vm = VirtualMachine::new(None, HV_SUCCESS).unwrap();
    let payload = [0x40u8, 0x00, 0x80, 0xd2, 0x02, 0x00, 0x00, 0xd4];
    let allocation = vm.allocate_from(&payload).unwrap();
    let slice = vm.get_allocation_slice(allocation).unwrap();
    assert_eq!(slice.len(), 0x10000);
    assert_eq!(&slice[..8], &payload[..]);
    assert!(slice[8..].iter().all(|byte| *byte == 0));
}

#[test]
fn allocate_rounds_up_and_zeroes() {
    let mut vm = VirtualMachine::new(None, HV_SUCCESS).unwrap();
    let small = vm.allocate(1).unwrap();
    let exact = vm.allocate(0x20000).unwrap();
    let over = vm.allocate(0x20001).unwrap();
    assert_eq!(vm.get_allocation_slice(small).unwrap().len(), 0x10000);
    assert_eq!(vm.get_allocation_slice(exact).unwrap().len(), 0x20000);
    assert_eq!(vm.get_allocation_slice(over).unwrap().len(), 0x30000);
    assert!(vm.get_allocation_slice(over).unwrap().iter().all(|byte| *byte == 0));
    assert_eq!(vm.allocate(usize::MAX), Err(HypervisorError::NoResources));
    assert_eq!(vm.allocate_from(&[]), Ok(AllocationHandle(4)));
}

#[test]
fn guest_memory_can_be_patched_in_place() {
    let mut vm = VirtualMachine::new(None, HV_SUCCESS).unwrap();
    let allocation = vm.allocate(0x100).unwrap();
    let mapping = vm.map(allocation, 0x20000, MemoryPermission::read_write(), HV_SUCCESS).unwrap();
    {
        let slice = vm.get_allocation_slice_mut(allocation).unwrap();
        slice[0] = 0xd4;
        slice[0x100] = 0x01;
    }
    let slice = vm.get_allocation_slice(allocation).unwrap();
    assert_eq!(slice[0], 0xd4);
    assert_eq!(slice[0x100], 0x01);
    assert_eq!(slice.len(), 0x10000);
    // the mapping is as it was
    assert_eq!(vm.get_mapping_info(mapping).unwrap().size, 0x10000);
}

#[test]
fn handles_of_both_kinds_are_never_reused() {
    let mut vm = VirtualMachine::new(None, HV_SUCCESS).unwrap();
    let mut allocations: Vec<AllocationHandle> = Vec::new();
    let mut mappings: Vec<MappingHandle> = Vec::new();
    for round in 0..50u64 {
        let allocation = vm.allocate(0).unwrap();
        assert!(!allocations.contains(&allocation));
        allocations.push(allocation);
        // every third map is refused by the backend and issues nothing
        let status = if round % 3 == 2 { HV_ERROR } else { HV_SUCCESS };
        if let Ok(mapping) = vm.map(allocation, round * 0x10000, MemoryPermission::read(), status) {
            assert!(!mappings.contains(&mapping));
            mappings.push(mapping);
            vm.unmap(mapping, HV_SUCCESS).unwrap();
        }
        vm.deallocate(allocation).unwrap();
    }
    assert_eq!(allocations.last(), Some(&AllocationHandle(50)));
    assert_eq!(mappings.len(), 34);
    assert_eq!(mappings.last(), Some(&MappingHandle(34)));
}

#[test]
fn teardown_unmaps_everything_then_destroys_the_vm() {
    let mut backend = GuestSpace::new();
    let mut vm = machine(&mut backend);
    let first = vm.allocate(0x10000).unwrap();
    let second = vm.allocate(0x20000).unwrap();
    map(&mut vm, &mut backend, first, 0x10000, MemoryPermission::read()).unwrap();
    let gone = map(&mut vm, &mut backend, second, 0x40000, MemoryPermission::read()).unwrap();
    map(&mut vm, &mut backend, first, 0x80000, MemoryPermission::execute()).unwrap();
    unmap(&mut vm, &mut backend, gone).unwrap();
    let calls = vm.teardown_calls();
    assert_eq!(
        calls,
        vec![
            BackendCall::VmUnmap { ipa: 0x10000, size: 0x10000 },
            BackendCall::VmUnmap { ipa: 0x80000, size: 0x10000 },
            BackendCall::VmDestroy,
        ]
    );
    for call in calls {
        assert_eq!(backend.perform(call), HV_SUCCESS);
    }
    assert!(backend.ranges.is_empty());
    assert!(!backend.created);
}

#[test]
fn teardown_of_an_empty_machine_only_destroys_the_vm() {
    let vm = VirtualMachine::new(None, HV_SUCCESS).unwrap();
    assert_eq!(vm.teardown_calls(), vec![BackendCall::VmDestroy]);
}

#[test]
fn exit_vcpus_names_the_vcpus_and_their_count() {
    let mut vm = VirtualMachine::new(None, HV_SUCCESS).unwrap();
    assert_eq!(
        vm.exit_vcpus_call(&[3, 1, 2]),
        BackendCall::VcpusExit { vcpus: vec![3, 1, 2], vcpu_count: 3 }
    );
    assert_eq!(vm.exit_vcpus_call(&[]), BackendCall::VcpusExit { vcpus: vec![], vcpu_count: 0 });
    assert_eq!(vm.exit_vcpus(&[3, 1, 2], HV_SUCCESS), Ok(()));
    assert_eq!(vm.exit_vcpus(&[3, 1, 2], HV_BAD_ARGUMENT), Err(HypervisorError::BadArgument));
}

#[test]
fn vcpu_creation_goes_by_the_backend_answer() {
    let mut vm = VirtualMachine::new(None, HV_SUCCESS).unwrap();
    assert_eq!(vm.create_vcpu_configuration_call(), BackendCall::VcpuConfigCreate);
    let mut configuration = vm.create_vcpu_configuration(0x7f00_1000);
    assert_eq!(configuration.get_handle(), 0x7f00_1000);
    assert_eq!(vm.create_vcpu_call(None), BackendCall::VcpuCreate { config: 0 });
    assert_eq!(
        vm.create_vcpu_call(Some(&configuration)),
        BackendCall::VcpuCreate { config: 0x7f00_1000 }
    );
    let vcpu = vm.create_vcpu(Some(&mut configuration), HV_SUCCESS, 5).unwrap();
    assert_eq!(vcpu.get_handle(), 5);
    assert_eq!(vm.create_vcpu(None, HV_SUCCESS, 0).unwrap().get_handle(), 0);
    assert_eq!(vm.create_vcpu(None, HV_NO_RESOURCES, 0).err(), Some(HypervisorError::NoResources));
    assert_eq!(vm.create_vcpu(None, HV_BUSY, 6).err(), Some(HypervisorError::Busy));
}
