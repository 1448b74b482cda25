//! The calls this layer asks of the hypervisor backend.
//!
//! Nothing in this crate talks to the backend. An operation that needs it comes in two parts:
//! one function says which call is to be made, as a [`BackendCall`]; its companion takes what the
//! backend answered and says what the operation returns and how the state changes. Whoever owns
//! the backend performs the call in between.
use vstd::prelude::*;

use crate::ffi::types::{
    hv_cache_type_t, hv_feature_reg_t, hv_interrupt_type_t, hv_ipa_t, hv_memory_flags_t, hv_reg_t,
    hv_sys_reg_t, hv_vcpu_config_t, hv_vcpu_t, hv_vm_config_t,
};
use crate::handle::AllocationHandle;

verus! {

/// One call of the hypervisor backend, with its arguments.
///
/// Results that the backend writes through a pointer are not part of the call: they come back
/// with the status code.
#[derive(Debug, PartialEq, Eq)]
pub enum BackendCall {
    /// Creates a VM instance for the current process.
    VmCreate {
        /// The VM configuration, zero for the default one.
        vm_config: hv_vm_config_t,
    },
    /// Destroys the VM instance associated with the current process.
    VmDestroy,
    /// Maps the whole backing memory of an allocation into the guest physical address space.
    VmMap {
        /// The allocation whose backing memory is exposed.
        allocation: AllocationHandle,
        /// The guest physical address at which it appears.
        ipa: hv_ipa_t,
        /// The size of the backing memory.
        size: usize,
        /// The permission bits.
        flags: hv_memory_flags_t,
    },
    /// Unmaps a region in the guest physical address space of the VM.
    VmUnmap {
        /// The guest physical address of the region.
        ipa: hv_ipa_t,
        /// The size of the region.
        size: usize,
    },
    /// Modifies the permissions of a region in the guest physical address space of the VM.
    VmProtect {
        /// The guest physical address of the region.
        ipa: hv_ipa_t,
        /// The size of the region.
        size: usize,
        /// The new permission bits.
        flags: hv_memory_flags_t,
    },
    /// Creates a vCPU configuration.
    VcpuConfigCreate,
    /// Gets the value of a feature register.
    VcpuConfigGetFeatureReg {
        /// The vCPU configuration.
        config: hv_vcpu_config_t,
        /// The feature register.
        feature_register: hv_feature_reg_t,
    },
    /// Gets the eight CCSIDR_EL1 values of a cache type.
    VcpuConfigGetCcsidrEl1SysRegValues {
        /// The vCPU configuration.
        config: hv_vcpu_config_t,
        /// The cache type.
        cache_type: hv_cache_type_t,
    },
    /// Releases a configuration object.
    Release {
        /// The object.
        object: hv_vcpu_config_t,
    },
    /// Creates a vCPU instance for the current thread.
    VcpuCreate {
        /// The vCPU configuration, zero for the default one.
        config: hv_vcpu_config_t,
    },
    /// Destroys the vCPU instance associated with the current thread.
    VcpuDestroy {
        /// The vCPU.
        vcpu: hv_vcpu_t,
    },
    /// Gets the current value of a vCPU register.
    VcpuGetReg {
        /// The vCPU.
        vcpu: hv_vcpu_t,
        /// The register.
        reg: hv_reg_t,
    },
    /// Sets the value of a vCPU register.
    VcpuSetReg {
        /// The vCPU.
        vcpu: hv_vcpu_t,
        /// The register.
        reg: hv_reg_t,
        /// The value.
        value: u64,
    },
    /// Gets the current value of a vCPU system register.
    VcpuGetSysReg {
        /// The vCPU.
        vcpu: hv_vcpu_t,
        /// The system register.
        sys_reg: hv_sys_reg_t,
    },
    /// Sets the value of a vCPU system register.
    VcpuSetSysReg {
        /// The vCPU.
        vcpu: hv_vcpu_t,
        /// The system register.
        sys_reg: hv_sys_reg_t,
        /// The value.
        value: u64,
    },
    /// Gets pending interrupts for a vCPU.
    VcpuGetPendingInterrupt {
        /// The vCPU.
        vcpu: hv_vcpu_t,
        /// The interrupt class.
        interrupt: hv_interrupt_type_t,
    },
    /// Sets pending interrupts for a vCPU.
    VcpuSetPendingInterrupt {
        /// The vCPU.
        vcpu: hv_vcpu_t,
        /// The interrupt class.
        interrupt: hv_interrupt_type_t,
        /// Whether the interrupt is pending.
        pending: bool,
    },
    /// Gets whether debug exceptions exit the guest.
    VcpuGetTrapDebugExceptions {
        /// The vCPU.
        vcpu: hv_vcpu_t,
    },
    /// Sets whether debug exceptions exit the guest.
    VcpuSetTrapDebugExceptions {
        /// The vCPU.
        vcpu: hv_vcpu_t,
        /// Whether they do.
        trap: bool,
    },
    /// Gets whether debug-register accesses exit the guest.
    VcpuGetTrapDebugRegAccesses {
        /// The vCPU.
        vcpu: hv_vcpu_t,
    },
    /// Sets whether debug-register accesses exit the guest.
    VcpuSetTrapDebugRegAccesses {
        /// The vCPU.
        vcpu: hv_vcpu_t,
        /// Whether they do.
        trap: bool,
    },
    /// Starts the execution of a vCPU. Blocks until the guest exits to the host.
    VcpuRun {
        /// The vCPU.
        vcpu: hv_vcpu_t,
    },
    /// Forces an immediate exit of a set of vCPUs of the VM.
    VcpusExit {
        /// The vCPUs.
        vcpus: Vec<hv_vcpu_t>,
        /// How many of them the backend is told to look at.
        vcpu_count: u32,
    },
    /// Returns the cumulative execution time of a vCPU.
    VcpuGetExecTime {
        /// The vCPU.
        vcpu: hv_vcpu_t,
    },
    /// Gets the virtual timer mask.
    VcpuGetVtimerMask {
        /// The vCPU.
        vcpu: hv_vcpu_t,
    },
    /// Sets the virtual timer mask.
    VcpuSetVtimerMask {
        /// The vCPU.
        vcpu: hv_vcpu_t,
        /// Whether the timer is masked.
        vtimer_is_masked: bool,
    },
    /// Gets the virtual timer offset.
    VcpuGetVtimerOffset {
        /// The vCPU.
        vcpu: hv_vcpu_t,
    },
    /// Sets the virtual timer offset.
    VcpuSetVtimerOffset {
        /// The vCPU.
        vcpu: hv_vcpu_t,
        /// The offset.
        vtimer_offset: u64,
    },
}

/// Whether `call` asks to force the exit of exactly the vCPUs `vcpus`, telling the backend to look
/// at `vcpu_count` of them.
pub open spec fn is_vcpus_exit(call: BackendCall, vcpus: Seq<hv_vcpu_t>, vcpu_count: u32) -> bool {
    call matches BackendCall::VcpusExit { vcpus: v, vcpu_count: n } && v@ == vcpus && n
        == vcpu_count
}

/// The call that forces the exit of the given vCPUs.
///
/// The backend takes the count as a 32-bit number: a longer list is announced with its length
/// modulo 2^32.
pub fn vcpus_exit_call(vcpus: &[hv_vcpu_t]) -> (call: BackendCall)
    ensures
        is_vcpus_exit(call, vcpus@, (vcpus@.len() % 0x1_0000_0000) as u32),
{
    let mut list: Vec<hv_vcpu_t> = Vec::new();
    list.extend_from_slice(vcpus);
    assert(list@ =~= vcpus@);
    let vcpu_count = ((vcpus.len() as u64) % 0x1_0000_0000) as u32;
    BackendCall::VcpusExit { vcpus: list, vcpu_count }
}

} // verus!
