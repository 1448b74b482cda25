use ahv::{
    AllocationHandle, HypervisorError, MappingHandle, MappingRegistry, MemoryPermission,
    VirtualMachineMapping,
};

#[test]
fn record_issues_handles_in_order_from_one() {
    let mut registry = MappingRegistry::new();
    assert!(registry.has_next());
    let first = registry.record(AllocationHandle(7), 0x20000, 0x10000, MemoryPermission::read());
    let second = registry.record(AllocationHandle(7), 0x40000, 0x10000, MemoryPermission::write());
    assert_eq!(first, MappingHandle(1));
    assert_eq!(second, MappingHandle(2));
}

#[test]
fn get_returns_what_was_recorded() {
    let mut registry = MappingRegistry::new();
    let handle =
        registry.record(AllocationHandle(3), 0x20000, 0x30000, MemoryPermission::read_execute());
    assert_eq!(
        registry.get(handle),
        Ok(VirtualMachineMapping {
            allocation_handle: AllocationHandle(3),
            mapping_handle: handle,
            address: 0x20000,
            size: 0x30000,
            permission: MemoryPermission::read_execute(),
        })
    );
}

#[test]
fn get_all_lists_the_records_oldest_first() {
    let mut registry = MappingRegistry::new();
    assert!(registry.get_all().is_empty());
    let first = registry.record(AllocationHandle(1), 0x10000, 0x10000, MemoryPermission::read());
    let second = registry.record(AllocationHandle(2), 0x20000, 0x20000, MemoryPermission::write());
    let third = registry.record(AllocationHandle(1), 0x50000, 0x10000, MemoryPermission::execute());
    let all = registry.get_all();
    assert_eq!(all.len(), 3);
    assert_eq!(all[0].mapping_handle, first);
    assert_eq!(all[1].mapping_handle, second);
    assert_eq!(all[2].mapping_handle, third);
    assert_eq!(all[1].address, 0x20000);
    assert_eq!(all[1].size, 0x20000);
    registry.remove(second).unwrap();
    let all = registry.get_all();
    assert_eq!(all.len(), 2);
    assert_eq!(all[0].mapping_handle, first);
    assert_eq!(all[1].mapping_handle, third);
}

#[test]
fn unknown_mapping_handles_are_invalid() {
    let mut registry = MappingRegistry::new();
    assert_eq!(registry.get(MappingHandle(1)), Err(HypervisorError::InvalidHandle));
    assert_eq!(registry.remove(MappingHandle(1)), Err(HypervisorError::InvalidHandle));
    assert_eq!(
        registry.update_permission(MappingHandle(1), MemoryPermission::read()),
        Err(HypervisorError::InvalidHandle)
    );
    assert_eq!(
        registry.find_mapping_by_handle(MappingHandle(0)),
        Err(HypervisorError::InvalidHandle)
    );
    let handle = registry.record(AllocationHandle(1), 0, 0, MemoryPermission::read());
    assert_eq!(registry.remove(handle), Ok(()));
    assert_eq!(registry.remove(handle), Err(HypervisorError::InvalidHandle));
    assert_eq!(registry.get(handle), Err(HypervisorError::InvalidHandle));
}

#[test]
fn update_permission_changes_the_permission_only() {
    let mut registry = MappingRegistry::new();
    let first = registry.record(AllocationHandle(1), 0x10000, 0x10000, MemoryPermission::read());
    let second = registry.record(AllocationHandle(2), 0x20000, 0x20000, MemoryPermission::read());
    let before = registry.get(first).unwrap();
    let other = registry.get(second).unwrap();
    assert_eq!(registry.update_permission(first, MemoryPermission::read_write_execute()), Ok(()));
    let after = registry.get(first).unwrap();
    assert_eq!(after.permission, MemoryPermission::read_write_execute());
    assert_eq!(after.allocation_handle, before.allocation_handle);
    assert_eq!(after.mapping_handle, before.mapping_handle);
    assert_eq!(after.address, before.address);
    assert_eq!(after.size, before.size);
    assert_eq!(registry.get(second), Ok(other));
    assert_eq!(registry.get_all().len(), 2);
}

#[test]
fn find_gives_the_place_in_the_list() {
    let mut registry = MappingRegistry::new();
    let first = registry.record(AllocationHandle(1), 0, 0, MemoryPermission::read());
    let second = registry.record(AllocationHandle(1), 0, 0, MemoryPermission::read());
    let third = registry.record(AllocationHandle(1), 0, 0, MemoryPermission::read());
    assert_eq!(registry.find_mapping_by_handle(first), Ok(0));
    assert_eq!(registry.find_mapping_by_handle(second), Ok(1));
    assert_eq!(registry.find_mapping_by_handle(third), Ok(2));
    registry.remove(first).unwrap();
    assert_eq!(registry.find_mapping_by_handle(second), Ok(0));
    assert_eq!(registry.find_mapping_by_handle(third), Ok(1));
}

#[test]
fn references_are_found_by_allocation_handle() {
    let mut registry = MappingRegistry::new();
    assert!(!registry.is_allocation_referenced(AllocationHandle(1)));
    let first = registry.record(AllocationHandle(1), 0x10000, 0x10000, MemoryPermission::read());
    let second = registry.record(AllocationHandle(1), 0x30000, 0x10000, MemoryPermission::read());
    assert!(registry.is_allocation_referenced(AllocationHandle(1)));
    assert!(!registry.is_allocation_referenced(AllocationHandle(2)));
    registry.remove(first).unwrap();
    assert!(registry.is_allocation_referenced(AllocationHandle(1)));
    registry.remove(second).unwrap();
    assert!(!registry.is_allocation_referenced(AllocationHandle(1)));
}

#[test]
fn mapping_handles_are_never_reused_across_cycles() {
    let mut registry = MappingRegistry::new();
    let mut issued: Vec<MappingHandle> = Vec::new();
    for round in 0..200 {
        let handle = registry.record(AllocationHandle(1), 0, 0, MemoryPermission::read());
        assert!(!issued.contains(&handle));
        assert_ne!(handle, MappingHandle(0));
        issued.push(handle);
        if round % 2 == 0 {
            registry.remove(handle).unwrap();
        }
    }
    assert_eq!(issued.last(), Some(&MappingHandle(200)));
}
