//! The Virtual CPU controller and the configuration a vCPU is created from.
use std::marker::PhantomData;
use std::rc::Rc;
use vstd::prelude::*;

use crate::backend::{is_vcpus_exit, vcpus_exit_call, BackendCall};
use crate::error::{
    convert_hv_reply, convert_hv_return, reply_result, status_result, HypervisorError,
};
use crate::ffi::types::{
    hv_cache_type_t, hv_feature_reg_t, hv_interrupt_type_t, hv_reg_t, hv_return_t, hv_sys_reg_t,
    hv_vcpu_config_t, hv_vcpu_exit_exception_t, hv_vcpu_exit_t, hv_vcpu_t,
    HV_EXIT_REASON_CANCELED, HV_EXIT_REASON_EXCEPTION, HV_EXIT_REASON_UNKNOWN,
    HV_EXIT_REASON_VTIMER_ACTIVATED,
};
use crate::register::{CacheType, FeatureRegister, InterruptType, Register, SystemRegister};

verus! {

/// vCPU configuration for a Virtual Machine.
#[derive(Debug)]
pub struct VirtualCpuConfiguration {
    /// Handle of the vCPU configuration.
    handle: hv_vcpu_config_t,
}

impl VirtualCpuConfiguration {
    /// The backend's configuration object.
    pub closed spec fn handle(&self) -> hv_vcpu_config_t {
        self.handle
    }

    /// Create a new vCPU configuration around the object that the backend's factory returned.
    pub(crate) fn new(handle: hv_vcpu_config_t) -> (configuration: Self)
        ensures
            configuration.handle() == handle,
    {
        VirtualCpuConfiguration { handle }
    }

    /// The backend's configuration object.
    pub fn get_handle(&self) -> (handle: hv_vcpu_config_t)
        ensures
            handle == self.handle(),
    {
        self.handle
    }

    /// The backend call that reads a feature register.
    pub fn get_feature_register_call(&self, feature_register: FeatureRegister) -> (call:
        BackendCall)
        ensures
            call == (BackendCall::VcpuConfigGetFeatureReg {
                config: self.handle(),
                feature_register: feature_register.id(),
            }),
    {
        BackendCall::VcpuConfigGetFeatureReg {
            config: self.handle,
            feature_register: hv_feature_reg_t::from(feature_register),
        }
    }

    /// Return value of a feature register.
    ///
    /// `status` and `value` are the backend's answer to
    /// [`get_feature_register_call`](Self::get_feature_register_call): the value on success,
    /// else the error that the status names.
    #[allow(unused_variables)]
    pub fn get_feature_register(
        &self,
        feature_register: FeatureRegister,
        status: hv_return_t,
        value: u64,
    ) -> (result: Result<u64, HypervisorError>)
        ensures
            result == reply_result(status, value),
    {
        convert_hv_reply(status, value)
    }

    /// The backend call that reads the CCSIDR_EL1 values of a cache type.
    pub fn get_ccsidr_el1_sys_register_values_call(&self, cache_type: CacheType) -> (call:
        BackendCall)
        ensures
            call == (BackendCall::VcpuConfigGetCcsidrEl1SysRegValues {
                config: self.handle(),
                cache_type: cache_type.id(),
            }),
    {
        BackendCall::VcpuConfigGetCcsidrEl1SysRegValues {
            config: self.handle,
            cache_type: hv_cache_type_t::from(cache_type),
        }
    }

    /// Return values of CCSIDR_EL1 for a given cache type.
    ///
    /// `status` and `values` are the backend's answer to
    /// [`get_ccsidr_el1_sys_register_values_call`](Self::get_ccsidr_el1_sys_register_values_call):
    /// the values on success, else the error that the status names.
    #[allow(unused_variables)]
    pub fn get_ccsidr_el1_sys_register_values(
        &self,
        cache_type: CacheType,
        status: hv_return_t,
        values: [u64; 8],
    ) -> (result: Result<[u64; 8], HypervisorError>)
        ensures
            result == reply_result(status, values),
    {
        convert_hv_reply(status, values)
    }

    /// The backend call that releases the configuration object. It is due when the
    /// configuration goes away.
    pub fn release_call(&self) -> (call: BackendCall)
        ensures
            call == (BackendCall::Release { object: self.handle() }),
    {
        BackendCall::Release { object: self.handle }
    }
}

/// Exit reason of a vCPU.
#[derive(Copy, Clone, Debug, PartialEq, Eq, Structural)]
pub enum VirtualCpuExitReason {
    /// Asynchronous exit.
    Cancelled,
    /// Guest exception.
    Exception {
        /// The informations about the guest exception.
        exception: hv_vcpu_exit_exception_t,
    },
    /// Virtual Timer enters the pending state.
    VTimerActivated,
    /// Unexpected exit.
    Unknown,
}

/// The exit reason that an exit record stands for.
///
/// Three reason codes have a meaning; every other code, the backend's own "unknown" included, is
/// an unexpected exit. The exception details count only when the reason is an exception.
pub open spec fn exit_reason_of(exit: hv_vcpu_exit_t) -> VirtualCpuExitReason {
    if exit.reason == HV_EXIT_REASON_CANCELED {
        VirtualCpuExitReason::Cancelled
    } else if exit.reason == HV_EXIT_REASON_EXCEPTION {
        VirtualCpuExitReason::Exception { exception: exit.exception }
    } else if exit.reason == HV_EXIT_REASON_VTIMER_ACTIVATED {
        VirtualCpuExitReason::VTimerActivated
    } else {
        VirtualCpuExitReason::Unknown
    }
}

impl From<hv_vcpu_exit_t> for VirtualCpuExitReason {
    fn from(value: hv_vcpu_exit_t) -> (reason: VirtualCpuExitReason)
        ensures
            reason == exit_reason_of(value),
    {
        match value.reason {
            HV_EXIT_REASON_CANCELED => VirtualCpuExitReason::Cancelled,
            HV_EXIT_REASON_EXCEPTION => VirtualCpuExitReason::Exception {
                exception: value.exception,
            },
            HV_EXIT_REASON_VTIMER_ACTIVATED => VirtualCpuExitReason::VTimerActivated,
            HV_EXIT_REASON_UNKNOWN => VirtualCpuExitReason::Unknown,
            // Unexpected unknown
            _ => VirtualCpuExitReason::Unknown,
        }
    }
}

impl vstd::std_specs::convert::FromSpecImpl<hv_vcpu_exit_t> for VirtualCpuExitReason {
    open spec fn obeys_from_spec() -> bool {
        true
    }

    open spec fn from_spec(value: hv_vcpu_exit_t) -> VirtualCpuExitReason {
        exit_reason_of(value)
    }
}

/// What running a vCPU answers: the decoded exit record when the backend reports success, else
/// the error that the status names.
pub open spec fn run_result(status: hv_return_t, exit: hv_vcpu_exit_t) -> Result<
    VirtualCpuExitReason,
    HypervisorError,
> {
    reply_result(status, exit_reason_of(exit))
}

/// vCPU for a Virtual Machine.
#[derive(Debug)]
pub struct VirtualCpu {
    /// A vCPU is resident to a specific thread. Therefore, it shouldn't be Send.
    _not_send_marker: PhantomData<Rc<()>>,
    /// Handle of the vCPU.
    handle: hv_vcpu_t,
}

impl VirtualCpu {
    /// The backend's name for this vCPU.
    pub closed spec fn handle(&self) -> hv_vcpu_t {
        self.handle
    }

    /// The controller of the vCPU that the backend created under `handle`.
    pub(crate) fn new(handle: hv_vcpu_t) -> (vcpu: Self)
        ensures
            vcpu.handle() == handle,
    {
        VirtualCpu { _not_send_marker: PhantomData, handle }
    }

    /// Gets vCPU handle.
    pub fn get_handle(&self) -> (handle: hv_vcpu_t)
        ensures
            handle == self.handle(),
    {
        self.handle
    }

    /// The backend call that gets a register value.
    pub fn get_register_call(&self, register: Register) -> (call: BackendCall)
        ensures
            call == (BackendCall::VcpuGetReg { vcpu: self.handle(), reg: register.id() }),
    {
        BackendCall::VcpuGetReg { vcpu: self.handle, reg: hv_reg_t::from(register) }
    }

    /// Gets a register value.
    ///
    /// `status` and `value` are the backend's answer to
    /// [`get_register_call`](Self::get_register_call): the value on success, else the error that
    /// the status names.
    ///
    /// **This should be called in the thread that will run the vCPU as it's resident inside it.**
    #[allow(unused_variables)]
    pub fn get_register(
        &mut self,
        register: Register,
        status: hv_return_t,
        value: u64,
    ) -> (result: Result<u64, HypervisorError>)
        ensures
            result == reply_result(status, value),
            *final(self) == *old(self),
    {
        convert_hv_reply(status, value)
    }

    /// The backend call that sets a register value.
    pub fn set_register_call(&self, register: Register, value: u64) -> (call: BackendCall)
        ensures
            call == (BackendCall::VcpuSetReg { vcpu: self.handle(), reg: register.id(), value }),
    {
        BackendCall::VcpuSetReg { vcpu: self.handle, reg: hv_reg_t::from(register), value }
    }

    /// Sets a register value.
    ///
    /// `status` is the backend's answer to [`set_register_call`](Self::set_register_call): success,
    /// or the error it names.
    ///
    /// **This should be called in the thread that will run the vCPU as it's resident inside it.**
    #[allow(unused_variables)]
    pub fn set_register(
        &mut self,
        register: Register,
        value: u64,
        status: hv_return_t,
    ) -> (result: Result<(), HypervisorError>)
        ensures
            result == status_result(status),
            *final(self) == *old(self),
    {
        convert_hv_return(status)
    }

    /// The backend call that gets a system register value.
    pub fn get_system_register_call(&self, register: SystemRegister) -> (call: BackendCall)
        ensures
            call == (BackendCall::VcpuGetSysReg { vcpu: self.handle(), sys_reg: register.id() }),
    {
        BackendCall::VcpuGetSysReg { vcpu: self.handle, sys_reg: hv_sys_reg_t::from(register) }
    }

    /// Gets a system register value.
    ///
    /// `status` and `value` are the backend's answer to
    /// [`get_system_register_call`](Self::get_system_register_call): the value on success, else the
    /// error that the status names.
    ///
    /// **This should be called in the thread that will run the vCPU as it's resident inside it.**
    #[allow(unused_variables)]
    pub fn get_system_register(
        &mut self,
        register: SystemRegister,
        status: hv_return_t,
        value: u64,
    ) -> (result: Result<u64, HypervisorError>)
        ensures
            result == reply_result(status, value),
            *final(self) == *old(self),
    {
        convert_hv_reply(status, value)
    }

    /// The backend call that sets a system register value.
    pub fn set_system_register_call(
        &self,
        register: SystemRegister,
        value: u64,
    ) -> (call: BackendCall)
        ensures
            call == (BackendCall::VcpuSetSysReg {
                vcpu: self.handle(),
                sys_reg: register.id(),
                value,
            }),
    {
        BackendCall::VcpuSetSysReg {
            vcpu: self.handle,
            sys_reg: hv_sys_reg_t::from(register),
            value,
        }
    }

    /// Sets a system register value.
    ///
    /// `status` is the backend's answer to
    /// [`set_system_register_call`](Self::set_system_register_call): success, or the error it
    /// names.
    ///
    /// **This should be called in the thread that will run the vCPU as it's resident inside it.**
    #[allow(unused_variables)]
    pub fn set_system_register(
        &mut self,
        register: SystemRegister,
        value: u64,
        status: hv_return_t,
    ) -> (result: Result<(), HypervisorError>)
        ensures
            result == status_result(status),
            *final(self) == *old(self),
    {
        convert_hv_return(status)
    }

    /// The backend call that gets pending interrupts.
    pub fn get_pending_interrupt_call(&self, interrupt_type: InterruptType) -> (call: BackendCall)
        ensures
            call == (BackendCall::VcpuGetPendingInterrupt {
                vcpu: self.handle(),
                interrupt: interrupt_type.id(),
            }),
    {
        BackendCall::VcpuGetPendingInterrupt {
            vcpu: self.handle,
            interrupt: hv_interrupt_type_t::from(interrupt_type),
        }
    }

    /// Gets pending interrupts.
    ///
    /// `status` and `value` are the backend's answer to
    /// [`get_pending_interrupt_call`](Self::get_pending_interrupt_call): the value on success, else
    /// the error that the status names.
    ///
    /// **This should be called in the thread that will run the vCPU as it's resident inside it.**
    #[allow(unused_variables)]
    pub fn get_pending_interrupt(
        &mut self,
        interrupt_type: InterruptType,
        status: hv_return_t,
        value: bool,
    ) -> (result: Result<bool, HypervisorError>)
        ensures
            result == reply_result(status, value),
            *final(self) == *old(self),
    {
        convert_hv_reply(status, value)
    }

    /// The backend call that sets pending interrupts.
    pub fn set_pending_interrupt_call(
        &self,
        interrupt_type: InterruptType,
        value: bool,
    ) -> (call: BackendCall)
        ensures
            call == (BackendCall::VcpuSetPendingInterrupt {
                vcpu: self.handle(),
                interrupt: interrupt_type.id(),
                pending: value,
            }),
    {
        BackendCall::VcpuSetPendingInterrupt {
            vcpu: self.handle,
            interrupt: hv_interrupt_type_t::from(interrupt_type),
            pending: value,
        }
    }

    /// Sets pending interrupts.
    ///
    /// **Pending interrupts automatically get cleared after vCPU run and must be resetup before
    /// every call to run.**
    ///
    /// `status` is the backend's answer to
    /// [`set_pending_interrupt_call`](Self::set_pending_interrupt_call): success, or the error it
    /// names.
    ///
    /// **This should be called in the thread that will run the vCPU as it's resident inside it.**
    #[allow(unused_variables)]
    pub fn set_pending_interrupt(
        &mut self,
        interrupt_type: InterruptType,
        value: bool,
        status: hv_return_t,
    ) -> (result: Result<(), HypervisorError>)
        ensures
            result == status_result(status),
            *final(self) == *old(self),
    {
        convert_hv_return(status)
    }

    /// The backend call that gets whether debug exceptions exit the vCPU.
    pub fn get_trap_debug_exceptions_call(&self) -> (call: BackendCall)
        ensures
            call == (BackendCall::VcpuGetTrapDebugExceptions { vcpu: self.handle() }),
    {
        BackendCall::VcpuGetTrapDebugExceptions { vcpu: self.handle }
    }

    /// Gets whether debug exceptions exit the vCPU.
    ///
    /// `status` and `value` are the backend's answer to
    /// [`get_trap_debug_exceptions_call`](Self::get_trap_debug_exceptions_call): the value on
    /// success, else the error that the status names.
    ///
    /// **This should be called in the thread that will run the vCPU as it's resident inside it.**
    #[allow(unused_variables)]
    pub fn get_trap_debug_exceptions(
        &mut self,
        status: hv_return_t,
        value: bool,
    ) -> (result: Result<bool, HypervisorError>)
        ensures
            result == reply_result(status, value),
            *final(self) == *old(self),
    {
        convert_hv_reply(status, value)
    }

    /// The backend call that sets whether debug exceptions exit the vCPU.
    pub fn set_trap_debug_exceptions_call(&self, value: bool) -> (call: BackendCall)
        ensures
            call == (BackendCall::VcpuSetTrapDebugExceptions { vcpu: self.handle(), trap: value }),
    {
        BackendCall::VcpuSetTrapDebugExceptions { vcpu: self.handle, trap: value }
    }

    /// Sets whether debug exceptions exit the vCPU.
    ///
    /// `status` is the backend's answer to
    /// [`set_trap_debug_exceptions_call`](Self::set_trap_debug_exceptions_call): success, or the
    /// error it names.
    ///
    /// **This should be called in the thread that will run the vCPU as it's resident inside it.**
    #[allow(unused_variables)]
    pub fn set_trap_debug_exceptions(
        &mut self,
        value: bool,
        status: hv_return_t,
    ) -> (result: Result<(), HypervisorError>)
        ensures
            result == status_result(status),
            *final(self) == *old(self),
    {
        convert_hv_return(status)
    }

    /// The backend call that gets whether debug-register accesses exit the vCPU.
    pub fn get_trap_debug_reg_accesses_call(&self) -> (call: BackendCall)
        ensures
            call == (BackendCall::VcpuGetTrapDebugRegAccesses { vcpu: self.handle() }),
    {
        BackendCall::VcpuGetTrapDebugRegAccesses { vcpu: self.handle }
    }

    /// Gets whether debug-register accesses exit the vCPU.
    ///
    /// `status` and `value` are the backend's answer to
    /// [`get_trap_debug_reg_accesses_call`](Self::get_trap_debug_reg_accesses_call): the value on
    /// success, else the error that the status names.
    ///
    /// **This should be called in the thread that will run the vCPU as it's resident inside it.**
    #[allow(unused_variables)]
    pub fn get_trap_debug_reg_accesses(
        &mut self,
        status: hv_return_t,
        value: bool,
    ) -> (result: Result<bool, HypervisorError>)
        ensures
            result == reply_result(status, value),
            *final(self) == *old(self),
    {
        convert_hv_reply(status, value)
    }

    /// The backend call that sets whether debug-register accesses exit the vCPU.
    pub fn set_trap_debug_reg_accesses_call(&self, value: bool) -> (call: BackendCall)
        ensures
            call == (BackendCall::VcpuSetTrapDebugRegAccesses { vcpu: self.handle(), trap: value }),
    {
        BackendCall::VcpuSetTrapDebugRegAccesses { vcpu: self.handle, trap: value }
    }

    /// Sets whether debug-register accesses exit the vCPU.
    ///
    /// `status` is the backend's answer to
    /// [`set_trap_debug_reg_accesses_call`](Self::set_trap_debug_reg_accesses_call): success, or
    /// the error it names.
    ///
    /// **This should be called in the thread that will run the vCPU as it's resident inside it.**
    #[allow(unused_variables)]
    pub fn set_trap_debug_reg_accesses(
        &mut self,
        value: bool,
        status: hv_return_t,
    ) -> (result: Result<(), HypervisorError>)
        ensures
            result == status_result(status),
            *final(self) == *old(self),
    {
        convert_hv_return(status)
    }

    /// The backend call that runs the vCPU. It blocks until the guest exits to the host.
    pub fn run_call(&self) -> (call: BackendCall)
        ensures
            call == (BackendCall::VcpuRun { vcpu: self.handle() }),
    {
        BackendCall::VcpuRun { vcpu: self.handle }
    }

    /// Runs the vCPU.
    ///
    /// `status` is the backend's answer to [`run_call`](Self::run_call) and `exit` the exit record
    /// it left behind. On success the record is decoded; it is not looked at otherwise.
    ///
    /// **This should be called in the thread that will run the vCPU as it's resident inside it.**
    pub fn run(&mut self, status: hv_return_t, exit: hv_vcpu_exit_t) -> (result: Result<
        VirtualCpuExitReason,
        HypervisorError,
    >)
        ensures
            result == run_result(status, exit),
            *final(self) == *old(self),
    {
        match convert_hv_return(status) {
            Ok(()) => Ok(VirtualCpuExitReason::from(exit)),
            Err(error) => Err(error),
        }
    }

    /// The backend call that forces this vCPU out of its run, now or when it next runs. Unlike
    /// the other calls it may be made from any thread.
    pub fn exit_call(&self) -> (call: BackendCall)
        ensures
            is_vcpus_exit(call, seq![self.handle()], 1),
    {
        let vcpus: [hv_vcpu_t; 1] = [self.handle];
        let call = vcpus_exit_call(vcpus.as_slice());
        assert(vcpus@ =~= seq![self.handle()]);
        call
    }

    /// Forces exit the vCPU.
    ///
    /// `status` is the backend's answer to [`exit_call`](Self::exit_call): success, or the error
    /// it names.
    pub fn exit(&mut self, status: hv_return_t) -> (result: Result<(), HypervisorError>)
        ensures
            result == status_result(status),
            *final(self) == *old(self),
    {
        convert_hv_return(status)
    }

    /// The backend call that gets cumulative execution time of a vCPU in mach_absolute_time().
    pub fn get_exec_time_call(&self) -> (call: BackendCall)
        ensures
            call == (BackendCall::VcpuGetExecTime { vcpu: self.handle() }),
    {
        BackendCall::VcpuGetExecTime { vcpu: self.handle }
    }

    /// Gets cumulative execution time of a vCPU in mach_absolute_time().
    ///
    /// `status` and `value` are the backend's answer to
    /// [`get_exec_time_call`](Self::get_exec_time_call): the value on success, else the error that
    /// the status names.
    ///
    /// **This should be called in the thread that will run the vCPU as it's resident inside it.**
    #[allow(unused_variables)]
    pub fn get_exec_time(
        &mut self,
        status: hv_return_t,
        value: u64,
    ) -> (result: Result<u64, HypervisorError>)
        ensures
            result == reply_result(status, value),
            *final(self) == *old(self),
    {
        convert_hv_reply(status, value)
    }

    /// The backend call that gets Virtual Timer mask.
    pub fn get_vtimer_mask_call(&self) -> (call: BackendCall)
        ensures
            call == (BackendCall::VcpuGetVtimerMask { vcpu: self.handle() }),
    {
        BackendCall::VcpuGetVtimerMask { vcpu: self.handle }
    }

    /// Gets Virtual Timer mask.
    ///
    /// `status` and `value` are the backend's answer to
    /// [`get_vtimer_mask_call`](Self::get_vtimer_mask_call): the value on success, else the error
    /// that the status names.
    #[allow(unused_variables)]
    pub fn get_vtimer_mask(
        &mut self,
        status: hv_return_t,
        value: bool,
    ) -> (result: Result<bool, HypervisorError>)
        ensures
            result == reply_result(status, value),
            *final(self) == *old(self),
    {
        convert_hv_reply(status, value)
    }

    /// The backend call that sets Virtual Timer mask.
    pub fn set_vtimer_mask_call(&self, value: bool) -> (call: BackendCall)
        ensures
            call == (BackendCall::VcpuSetVtimerMask {
                vcpu: self.handle(),
                vtimer_is_masked: value,
            }),
    {
        BackendCall::VcpuSetVtimerMask { vcpu: self.handle, vtimer_is_masked: value }
    }

    /// Sets Virtual Timer mask.
    ///
    /// `status` is the backend's answer to [`set_vtimer_mask_call`](Self::set_vtimer_mask_call):
    /// success, or the error it names.
    #[allow(unused_variables)]
    pub fn set_vtimer_mask(
        &mut self,
        value: bool,
        status: hv_return_t,
    ) -> (result: Result<(), HypervisorError>)
        ensures
            result == status_result(status),
            *final(self) == *old(self),
    {
        convert_hv_return(status)
    }

    /// The backend call that gets Virtual Timer offset (CNTVOFF_EL2).
    pub fn get_vtimer_offset_call(&self) -> (call: BackendCall)
        ensures
            call == (BackendCall::VcpuGetVtimerOffset { vcpu: self.handle() }),
    {
        BackendCall::VcpuGetVtimerOffset { vcpu: self.handle }
    }

    /// Gets Virtual Timer offset (CNTVOFF_EL2).
    ///
    /// `status` and `value` are the backend's answer to
    /// [`get_vtimer_offset_call`](Self::get_vtimer_offset_call): the value on success, else the
    /// error that the status names.
    #[allow(unused_variables)]
    pub fn get_vtimer_offset(
        &mut self,
        status: hv_return_t,
        value: u64,
    ) -> (result: Result<u64, HypervisorError>)
        ensures
            result == reply_result(status, value),
            *final(self) == *old(self),
    {
        convert_hv_reply(status, value)
    }

    /// The backend call that sets Virtual Timer offset (CNTVOFF_EL2).
    pub fn set_vtimer_offset_call(&self, value: u64) -> (call: BackendCall)
        ensures
            call == (BackendCall::VcpuSetVtimerOffset {
                vcpu: self.handle(),
                vtimer_offset: value,
            }),
    {
        BackendCall::VcpuSetVtimerOffset { vcpu: self.handle, vtimer_offset: value }
    }

    /// Sets Virtual Timer offset (CNTVOFF_EL2).
    ///
    /// `status` is the backend's answer to
    /// [`set_vtimer_offset_call`](Self::set_vtimer_offset_call): success, or the error it names.
    #[allow(unused_variables)]
    pub fn set_vtimer_offset(
        &mut self,
        value: u64,
        status: hv_return_t,
    ) -> (result: Result<(), HypervisorError>)
        ensures
            result == status_result(status),
            *final(self) == *old(self),
    {
        convert_hv_return(status)
    }

    /// The calls that take the vCPU down, in order: force it out of its run, then destroy it.
    /// They are due when the controller goes away, and a failure of either is fatal.
    pub fn teardown_calls(&self) -> (calls: Vec<BackendCall>)
        ensures
            calls@.len() == 2,
            is_vcpus_exit(calls@[0], seq![self.handle()], 1),
            calls@[1] == (BackendCall::VcpuDestroy { vcpu: self.handle() }),
    {
        let mut calls: Vec<BackendCall> = Vec::new();
        calls.push(self.exit_call());
        calls.push(BackendCall::VcpuDestroy { vcpu: self.handle });
        calls
    }
}

} // verus!
