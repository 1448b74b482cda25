use ahv::ffi::types::{hv_memory_flags_t, HV_MEMORY_EXEC, HV_MEMORY_READ, HV_MEMORY_WRITE};
use ahv::MemoryPermission;

#[test]
fn permission_flags_are_one_bit_per_grant() {
    assert_eq!(hv_memory_flags_t::from(MemoryPermission::new(false, false, false)), 0);
    assert_eq!(hv_memory_flags_t::from(MemoryPermission::read()), 1);
    assert_eq!(hv_memory_flags_t::from(MemoryPermission::write()), 2);
    assert_eq!(hv_memory_flags_t::from(MemoryPermission::execute()), 4);
    assert_eq!(hv_memory_flags_t::from(MemoryPermission::read_write()), 3);
    assert_eq!(hv_memory_flags_t::from(MemoryPermission::read_execute()), 5);
    assert_eq!(hv_memory_flags_t::from(MemoryPermission::write_execute()), 6);
    assert_eq!(hv_memory_flags_t::from(MemoryPermission::read_write_execute()), 7);
}

#[test]
fn permission_flag_bits_are_the_backend_constants() {
    assert_eq!(HV_MEMORY_READ, 1 << 0);
    assert_eq!(HV_MEMORY_WRITE, 1 << 1);
    assert_eq!(HV_MEMORY_EXEC, 1 << 2);
}

#[test]
fn named_permissions_equal_their_grants() {
    assert_eq!(MemoryPermission::read(), MemoryPermission::new(true, false, false));
    assert_eq!(MemoryPermission::write(), MemoryPermission::new(false, true, false));
    assert_eq!(MemoryPermission::execute(), MemoryPermission::new(false, false, true));
    assert_eq!(MemoryPermission::read_write(), MemoryPermission::new(true, true, false));
    assert_eq!(MemoryPermission::read_execute(), MemoryPermission::new(true, false, true));
    assert_eq!(MemoryPermission::write_execute(), MemoryPermission::new(false, true, true));
    assert_eq!(MemoryPermission::read_write_execute(), MemoryPermission::new(true, true, true));
}

#[test]
fn every_combination_of_grants_has_its_own_flag_word() {
    let mut seen: Vec<hv_memory_flags_t> = Vec::new();
    for bits in 0u8..8 {
        let read = bits & 1 != 0;
        let write = bits & 2 != 0;
        let execute = bits & 4 != 0;
        let flags = hv_memory_flags_t::from(MemoryPermission::new(read, write, execute));
        assert_eq!(flags & HV_MEMORY_READ != 0, read);
        assert_eq!(flags & HV_MEMORY_WRITE != 0, write);
        assert_eq!(flags & HV_MEMORY_EXEC != 0, execute);
        assert_eq!(flags & !7, 0);
        assert!(!seen.contains(&flags));
        seen.push(flags);
    }
    assert_eq!(seen.len(), 8);
}
