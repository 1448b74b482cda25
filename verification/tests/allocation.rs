use ahv::allocation::round_up_to_page;
use ahv::{
    AllocationHandle, AllocationRegistry, HypervisorError, MappingRegistry, MemoryPermission,
    VirtualMachineAllocation, PAGE_SIZE,
};

#[test]
fn page_size_is_64_kib() {
    assert_eq!(PAGE_SIZE, 0x10000);
}

#[test]
fn sizes_round_up_to_whole_pages() {
    assert_eq!(round_up_to_page(0), Some(0));
    assert_eq!(round_up_to_page(1), Some(0x10000));
    assert_eq!(round_up_to_page(0x1000), Some(0x10000));
    assert_eq!(round_up_to_page(0xffff), Some(0x10000));
    assert_eq!(round_up_to_page(0x10000), Some(0x10000));
    assert_eq!(round_up_to_page(0x10001), Some(0x20000));
    assert_eq!(round_up_to_page(0x2ffff), Some(0x30000));
    assert_eq!(round_up_to_page(usize::MAX - 0xffff), Some(usize::MAX - 0xffff));
}

#[test]
fn rounding_that_does_not_fit_is_refused() {
    assert_eq!(round_up_to_page(usize::MAX), None);
    assert_eq!(round_up_to_page(usize::MAX - 0xfffe), None);
}

#[test]
fn new_allocation_is_zeroed_and_page_sized() {
    let mut registry = AllocationRegistry::new();
    let handle = registry.register(VirtualMachineAllocation::new(0x1234)).unwrap();
    let slice = registry.get_slice(handle).unwrap();
    assert_eq!(slice.len(), 0x10000);
    assert!(slice.iter().all(|byte| *byte == 0));
}

#[test]
fn allocation_of_nothing_is_empty() {
    let mut registry = AllocationRegistry::new();
    let handle = registry.allocate(0).unwrap();
    assert_eq!(registry.get_slice(handle).unwrap().len(), 0);
}

#[test]
fn allocation_that_cannot_be_served_reports_no_resources() {
    let mut registry = AllocationRegistry::new();
    assert_eq!(registry.allocate(usize::MAX), Err(HypervisorError::NoResources));
    assert_eq!(registry.allocate(usize::MAX - 0xffff), Err(HypervisorError::NoResources));
    assert!(VirtualMachineAllocation::new(usize::MAX).is_none());
    // a failed allocation uses up no handle
    assert_eq!(registry.allocate(1), Ok(AllocationHandle(1)));
}

#[test]
fn registering_nothing_reports_no_resources() {
    let mut registry = AllocationRegistry::new();
    assert_eq!(registry.register(None), Err(HypervisorError::NoResources));
    assert_eq!(registry.allocate(1), Ok(AllocationHandle(1)));
}

#[test]
fn allocate_from_copies_the_source_and_zeroes_the_tail() {
    let mut registry = AllocationRegistry::new();
    let source = [0x40u8, 0x00, 0x80, 0xd2, 0x02, 0x00, 0x00, 0xd4];
    let handle = registry.allocate_from(&source).unwrap();
    let slice = registry.get_slice(handle).unwrap();
    assert_eq!(slice.len(), 0x10000);
    assert_eq!(&slice[..source.len()], &source[..]);
    assert!(slice[source.len()..].iter().all(|byte| *byte == 0));
}

#[test]
fn allocate_from_a_whole_page_has_no_tail() {
    let mut registry = AllocationRegistry::new();
    let source = vec![0xabu8; 0x10000];
    let handle = registry.allocate_from(&source).unwrap();
    assert_eq!(registry.get_slice(handle).unwrap(), &source[..]);
}

#[test]
fn allocate_from_one_byte_more_than_a_page_takes_two_pages() {
    let mut registry = AllocationRegistry::new();
    let source = vec![0x5au8; 0x10001];
    let handle = registry.allocate_from(&source).unwrap();
    let slice = registry.get_slice(handle).unwrap();
    assert_eq!(slice.len(), 0x20000);
    assert_eq!(&slice[..0x10001], &source[..]);
    assert!(slice[0x10001..].iter().all(|byte| *byte == 0));
}

#[test]
fn allocate_from_nothing_is_empty() {
    let mut registry = AllocationRegistry::new();
    let handle = registry.allocate_from(&[]).unwrap();
    assert_eq!(registry.get_slice(handle).unwrap().len(), 0);
}

#[test]
fn handles_are_issued_in_order_from_one() {
    let mut registry = AllocationRegistry::new();
    assert_eq!(registry.allocate(1), Ok(AllocationHandle(1)));
    assert_eq!(registry.allocate(1), Ok(AllocationHandle(2)));
    assert_eq!(registry.allocate_from(&[1, 2, 3]), Ok(AllocationHandle(3)));
}

#[test]
fn registry_holds_exactly_what_was_allocated_and_not_deallocated() {
    let mut registry = AllocationRegistry::new();
    let mappings = MappingRegistry::new();
    let first = registry.allocate(1).unwrap();
    let second = registry.allocate(1).unwrap();
    let third = registry.allocate(1).unwrap();
    assert_eq!(registry.deallocate(second, &mappings), Ok(()));
    let fourth = registry.allocate(1).unwrap();
    assert_eq!(registry.deallocate(first, &mappings), Ok(()));
    assert!(!registry.contains(first));
    assert!(!registry.contains(second));
    assert!(registry.contains(third));
    assert!(registry.contains(fourth));
    assert!(!registry.contains(AllocationHandle(0)));
    assert!(!registry.contains(AllocationHandle(5)));
}

#[test]
fn deallocating_an_unknown_handle_is_invalid() {
    let mut registry = AllocationRegistry::new();
    let mappings = MappingRegistry::new();
    assert_eq!(
        registry.deallocate(AllocationHandle(0), &mappings),
        Err(HypervisorError::InvalidHandle)
    );
    assert_eq!(
        registry.deallocate(AllocationHandle(1), &mappings),
        Err(HypervisorError::InvalidHandle)
    );
    let handle = registry.allocate(1).unwrap();
    assert_eq!(
        registry.deallocate(AllocationHandle(2), &mappings),
        Err(HypervisorError::InvalidHandle)
    );
    assert_eq!(registry.deallocate(handle, &mappings), Ok(()));
    // a retired handle is as unknown as one that was never issued
    assert_eq!(registry.deallocate(handle, &mappings), Err(HypervisorError::InvalidHandle));
    assert!(registry.contains(handle) == false);
}

#[test]
fn handles_are_never_reused_across_cycles() {
    let mut registry = AllocationRegistry::new();
    let mappings = MappingRegistry::new();
    let mut issued: Vec<AllocationHandle> = Vec::new();
    for round in 0..200 {
        let handle = registry.allocate(0).unwrap();
        assert!(!issued.contains(&handle));
        assert_ne!(handle, AllocationHandle(0));
        issued.push(handle);
        if round % 3 != 0 {
            assert_eq!(registry.deallocate(handle, &mappings), Ok(()));
        }
    }
    assert_eq!(issued.len(), 200);
    assert_eq!(issued.last(), Some(&AllocationHandle(200)));
}

#[test]
fn slices_of_unknown_handles_are_invalid() {
    let mut registry = AllocationRegistry::new();
    let mappings = MappingRegistry::new();
    assert_eq!(registry.get_slice(AllocationHandle(1)).err(), Some(HypervisorError::InvalidHandle));
    assert_eq!(
        registry.get_mutable_slice(AllocationHandle(1)).err(),
        Some(HypervisorError::InvalidHandle)
    );
    let handle = registry.allocate(1).unwrap();
    registry.deallocate(handle, &mappings).unwrap();
    assert_eq!(registry.get_slice(handle).err(), Some(HypervisorError::InvalidHandle));
}

#[test]
fn writes_through_the_mutable_slice_are_read_back() {
    let mut registry = AllocationRegistry::new();
    let first = registry.allocate_from(&[1, 2, 3]).unwrap();
    let second = registry.allocate_from(&[4, 5, 6]).unwrap();
    {
        let slice = registry.get_mutable_slice(first).unwrap();
        assert_eq!(slice.len(), 0x10000);
        slice[1] = 0xff;
        slice[0xffff] = 0x7f;
    }
    let slice = registry.get_slice(first).unwrap();
    assert_eq!(&slice[..3], &[1, 0xff, 3]);
    assert_eq!(slice[0xffff], 0x7f);
    assert!(slice[3..0xffff].iter().all(|byte| *byte == 0));
    // the other allocation is untouched
    let other = registry.get_slice(second).unwrap();
    assert_eq!(&other[..3], &[4, 5, 6]);
    assert!(other[3..].iter().all(|byte| *byte == 0));
}

#[test]
fn a_fresh_registry_can_issue_handles() {
    let registry = AllocationRegistry::new();
    assert!(registry.has_next());
}

#[test]
fn referenced_allocation_is_not_released() {
    let mut registry = AllocationRegistry::new();
    let mut mappings = MappingRegistry::new();
    let handle = registry.allocate_from(&[1, 2, 3]).unwrap();
    let other = registry.allocate(1).unwrap();
    let mapping = mappings.record(handle, 0x20000, 0x10000, MemoryPermission::read());
    assert_eq!(registry.deallocate(handle, &mappings), Err(HypervisorError::AllocationStillMapped));
    assert!(registry.contains(handle));
    assert_eq!(&registry.get_slice(handle).unwrap()[..3], &[1, 2, 3]);
    // an allocation that no mapping exposes goes, and an unknown handle is unknown first
    assert_eq!(registry.deallocate(other, &mappings), Ok(()));
    assert_eq!(registry.deallocate(other, &mappings), Err(HypervisorError::InvalidHandle));
    mappings.remove(mapping).unwrap();
    assert_eq!(registry.deallocate(handle, &mappings), Ok(()));
    assert!(!registry.contains(handle));
}

#[test]
fn allocation_of_nothing_is_always_made() {
    assert!(VirtualMachineAllocation::new(0).is_some());
    assert!(VirtualMachineAllocation::new_from(&[]).is_some());
    let mut registry = AllocationRegistry::new();
    assert_eq!(registry.allocate(0), Ok(AllocationHandle(1)));
    assert_eq!(registry.allocate_from(&[]), Ok(AllocationHandle(2)));
    assert_eq!(registry.get_slice(AllocationHandle(1)).unwrap().len(), 0);
    assert_eq!(registry.get_slice(AllocationHandle(2)).unwrap().len(), 0);
}

#[test]
fn refused_reservation_gives_no_allocation() {
    assert!(VirtualMachineAllocation::from_reservation(Vec::new(), 0x10000, false).is_none());
    assert!(VirtualMachineAllocation::from_reservation(vec![1, 2, 3], 0x10000, false).is_none());
    assert!(VirtualMachineAllocation::from_reservation(Vec::new(), 0, false).is_none());
}

#[test]
fn granted_reservation_is_filled_up_with_zeroes() {
    let mut registry = AllocationRegistry::new();
    let allocation = VirtualMachineAllocation::from_reservation(vec![1, 2, 3], 0x10000, true);
    let handle = registry.register(allocation).unwrap();
    let slice = registry.get_slice(handle).unwrap();
    assert_eq!(slice.len(), 0x10000);
    assert_eq!(&slice[..3], &[1, 2, 3]);
    assert!(slice[3..].iter().all(|byte| *byte == 0));
}

#[test]
fn granted_reservation_is_cut_to_its_size() {
    let mut registry = AllocationRegistry::new();
    let allocation = VirtualMachineAllocation::from_reservation(vec![1, 2, 3, 4], 2, true);
    let handle = registry.register(allocation).unwrap();
    assert_eq!(registry.get_slice(handle).unwrap(), &[1, 2]);
    let empty = VirtualMachineAllocation::from_reservation(vec![1, 2, 3, 4], 0, true);
    let handle = registry.register(empty).unwrap();
    assert_eq!(registry.get_slice(handle).unwrap().len(), 0);
}
