use ahv::ffi::types::{
    hv_return_t, hv_vcpu_exit_exception_t, hv_vcpu_exit_t, hv_vcpu_t, HV_BAD_ARGUMENT, HV_BUSY,
    HV_ERROR, HV_EXIT_REASON_CANCELED, HV_EXIT_REASON_EXCEPTION, HV_EXIT_REASON_UNKNOWN,
    HV_EXIT_REASON_VTIMER_ACTIVATED, HV_ILLEGAL_GUEST_STATE, HV_SUCCESS, HV_UNSUPPORTED,
};
use ahv::{
    BackendCall, CacheType, FeatureRegister, HypervisorError, InterruptType, Register,
    SystemRegister, VirtualCpu, VirtualCpuExitReason, VirtualMachine,
};

/// What the stand-in backend answers: a status, and whatever the call writes back.
struct Answer {
    status: hv_return_t,
    value: u64,
    exit: hv_vcpu_exit_t,
}

/// A stand-in for the backend's vCPU calls. It keeps one vCPU's general registers, remembers a
/// request to force the vCPU out of its run, and otherwise plays the exits it was given, in
/// order.
struct ScriptedCpu {
    vcpu: hv_vcpu_t,
    registers: [u64; 35],
    exit_requested: bool,
    exits: Vec<hv_vcpu_exit_t>,
}

fn no_exception() -> hv_vcpu_exit_exception_t {
    hv_vcpu_exit_exception_t { syndrome: 0, virtual_address: 0, physical_address: 0 }
}

impl ScriptedCpu {
    fn new(vcpu: hv_vcpu_t, exits: Vec<hv_vcpu_exit_t>) -> Self {
        ScriptedCpu { vcpu, registers: [0; 35], exit_requested: false, exits }
    }

    fn answer(status: hv_return_t, value: u64) -> Answer {
        Answer { status, value, exit: hv_vcpu_exit_t { reason: 0, exception: no_exception() } }
    }

    fn perform(&mut self, call: BackendCall) -> Answer {
        match call {
            BackendCall::VcpuCreate { .. } => Self::answer(HV_SUCCESS, self.vcpu),
            BackendCall::VcpuGetReg { vcpu, reg } if vcpu == self.vcpu && reg < 35 => {
                Self::answer(HV_SUCCESS, self.registers[reg as usize])
            }
            BackendCall::VcpuSetReg { vcpu, reg, value } if vcpu == self.vcpu && reg < 35 => {
                self.registers[reg as usize] = value;
                Self::answer(HV_SUCCESS, 0)
            }
            BackendCall::VcpusExit { vcpus, vcpu_count } => {
                if vcpus[..vcpu_count as usize].contains(&self.vcpu) {
                    self.exit_requested = true;
                    Self::answer(HV_SUCCESS, 0)
                } else {
                    Self::answer(HV_BAD_ARGUMENT, 0)
                }
            }
            BackendCall::VcpuRun { vcpu } if vcpu == self.vcpu => {
                if self.exit_requested {
                    self.exit_requested = false;
                    let exit = hv_vcpu_exit_t {
                        reason: HV_EXIT_REASON_CANCELED,
                        exception: no_exception(),
                    };
                    return Answer { status: HV_SUCCESS, value: 0, exit };
                }
                if self.exits.is_empty() {
                    return Self::answer(HV_ILLEGAL_GUEST_STATE, 0);
                }
                // the guest runs `mov x0, #2` and then traps
                self.registers[0] = 2;
                self.registers[31] += 8;
                Answer { status: HV_SUCCESS, value: 0, exit: self.exits.remove(0) }
            }
            _ => Self::answer(HV_BAD_ARGUMENT, 0),
        }
    }
}

fn vcpu(handle: hv_vcpu_t) -> VirtualCpu {
    let mut vm = VirtualMachine::new(None, HV_SUCCESS).unwrap();
    vm.create_vcpu(None, HV_SUCCESS, handle).unwrap()
}

fn set_register(cpu: &mut VirtualCpu, backend: &mut ScriptedCpu, register: Register, value: u64) {
    let answer = backend.perform(cpu.set_register_call(register, value));
    cpu.set_register(register, value, answer.status).unwrap();
}

fn get_register(cpu: &mut VirtualCpu, backend: &mut ScriptedCpu, register: Register) -> u64 {
    let answer = backend.perform(cpu.get_register_call(register));
    cpu.get_register(register, answer.status, answer.value).unwrap()
}

fn run(
    cpu: &mut VirtualCpu,
    backend: &mut ScriptedCpu,
) -> Result<VirtualCpuExitReason, HypervisorError> {
    let answer = backend.perform(cpu.run_call());
    cpu.run(answer.status, answer.exit)
}

#[test]
fn run_until_hypervisor_call() {
    let trap = hv_vcpu_exit_t {
        reason: HV_EXIT_REASON_EXCEPTION,
        exception: hv_vcpu_exit_exception_t {
            syndrome: (0x16 << 26) | (1 << 25),
            virtual_address: 0,
            physical_address: 0,
        },
    };
    let mut backend = ScriptedCpu::new(4, vec![trap]);
    let mut vm = VirtualMachine::new(None, HV_SUCCESS).unwrap();
    let created = backend.perform(vm.create_vcpu_call(None));
    let mut cpu = vm.create_vcpu(None, created.status, created.value).unwrap();
    assert_eq!(cpu.get_handle(), 4);
    set_register(&mut cpu, &mut backend, Register::CPSR, 0x3c4);
    set_register(&mut cpu, &mut backend, Register::PC, 0x20000);
    match run(&mut cpu, &mut backend) {
        Ok(VirtualCpuExitReason::Exception { exception }) => {
            assert_eq!((exception.syndrome >> 26) & 0x3f, 0x16);
            assert_eq!(exception, trap.exception);
        }
        other => panic!("unexpected exit: {:?}", other),
    }
    assert_eq!(get_register(&mut cpu, &mut backend, Register::X0), 2);
    assert_eq!(get_register(&mut cpu, &mut backend, Register::PC), 0x20008);
    assert_eq!(get_register(&mut cpu, &mut backend, Register::CPSR), 0x3c4);
    // the script is over: the backend fails the next run and its error is passed on
    assert_eq!(run(&mut cpu, &mut backend), Err(HypervisorError::IllegalGuestState));
}

#[test]
fn forced_exit_cancels_the_run() {
    let trap = hv_vcpu_exit_t {
        reason: HV_EXIT_REASON_VTIMER_ACTIVATED,
        exception: no_exception(),
    };
    let mut backend = ScriptedCpu::new(9, vec![trap]);
    let mut cpu = vcpu(9);
    let answer = backend.perform(cpu.exit_call());
    assert_eq!(cpu.exit(answer.status), Ok(()));
    assert_eq!(run(&mut cpu, &mut backend), Ok(VirtualCpuExitReason::Cancelled));
    // the request is used up: the next run goes through
    assert_eq!(run(&mut cpu, &mut backend), Ok(VirtualCpuExitReason::VTimerActivated));
}

#[test]
fn forced_exit_through_the_machine_cancels_the_run() {
    let mut backend = ScriptedCpu::new(2, Vec::new());
    let mut vm = VirtualMachine::new(None, HV_SUCCESS).unwrap();
    let mut cpu = vm.create_vcpu(None, HV_SUCCESS, 2).unwrap();
    let handles = [cpu.get_handle()];
    let answer = backend.perform(vm.exit_vcpus_call(&handles));
    assert_eq!(vm.exit_vcpus(&handles, answer.status), Ok(()));
    assert_eq!(run(&mut cpu, &mut backend), Ok(VirtualCpuExitReason::Cancelled));
}

#[test]
fn exit_reasons_are_decoded() {
    let exception = hv_vcpu_exit_exception_t {
        syndrome: 0x9200_0046,
        virtual_address: 0xffff_0000_1234_5678,
        physical_address: 0x4000_1000,
    };
    let exit = |reason| hv_vcpu_exit_t { reason, exception };
    assert_eq!(
        VirtualCpuExitReason::from(exit(HV_EXIT_REASON_CANCELED)),
        VirtualCpuExitReason::Cancelled
    );
    assert_eq!(
        VirtualCpuExitReason::from(exit(HV_EXIT_REASON_EXCEPTION)),
        VirtualCpuExitReason::Exception { exception }
    );
    assert_eq!(
        VirtualCpuExitReason::from(exit(HV_EXIT_REASON_VTIMER_ACTIVATED)),
        VirtualCpuExitReason::VTimerActivated
    );
    assert_eq!(
        VirtualCpuExitReason::from(exit(HV_EXIT_REASON_UNKNOWN)),
        VirtualCpuExitReason::Unknown
    );
    assert_eq!(VirtualCpuExitReason::from(exit(4)), VirtualCpuExitReason::Unknown);
    assert_eq!(VirtualCpuExitReason::from(exit(u32::MAX)), VirtualCpuExitReason::Unknown);
}

#[test]
fn exit_reason_codes_have_the_backend_values() {
    assert_eq!(HV_EXIT_REASON_CANCELED, 0);
    assert_eq!(HV_EXIT_REASON_EXCEPTION, 1);
    assert_eq!(HV_EXIT_REASON_VTIMER_ACTIVATED, 2);
    assert_eq!(HV_EXIT_REASON_UNKNOWN, 3);
}

#[test]
fn run_looks_at_the_exit_record_only_on_success() {
    let mut cpu = vcpu(1);
    let exit = hv_vcpu_exit_t {
        reason: HV_EXIT_REASON_EXCEPTION,
        exception: hv_vcpu_exit_exception_t {
            syndrome: 1,
            virtual_address: 2,
            physical_address: 3,
        },
    };
    assert_eq!(cpu.run_call(), BackendCall::VcpuRun { vcpu: 1 });
    assert_eq!(
        cpu.run(HV_SUCCESS, exit),
        Ok(VirtualCpuExitReason::Exception { exception: exit.exception })
    );
    assert_eq!(cpu.run(HV_ERROR, exit), Err(HypervisorError::Error));
    assert_eq!(cpu.run(HV_BUSY, exit), Err(HypervisorError::Busy));
    assert_eq!(cpu.run(0x99, exit), Err(HypervisorError::Unknown(0x99)));
}

#[test]
fn register_calls_name_the_vcpu_and_the_register() {
    let cpu = vcpu(7);
    assert_eq!(cpu.get_register_call(Register::X0), BackendCall::VcpuGetReg { vcpu: 7, reg: 0 });
    assert_eq!(cpu.get_register_call(Register::FP), BackendCall::VcpuGetReg { vcpu: 7, reg: 29 });
    assert_eq!(
        cpu.set_register_call(Register::PC, 0x20000),
        BackendCall::VcpuSetReg { vcpu: 7, reg: 31, value: 0x20000 }
    );
    assert_eq!(
        cpu.get_system_register_call(SystemRegister::SCTLR_EL1),
        BackendCall::VcpuGetSysReg { vcpu: 7, sys_reg: 0xc080 }
    );
    assert_eq!(
        cpu.set_system_register_call(SystemRegister::VBAR_EL1, 0x8000),
        BackendCall::VcpuSetSysReg { vcpu: 7, sys_reg: 0xc600, value: 0x8000 }
    );
}

#[test]
fn interrupt_and_trap_calls_name_the_vcpu_and_the_setting() {
    let cpu = vcpu(3);
    assert_eq!(
        cpu.get_pending_interrupt_call(InterruptType::IRQ),
        BackendCall::VcpuGetPendingInterrupt { vcpu: 3, interrupt: 0 }
    );
    assert_eq!(
        cpu.set_pending_interrupt_call(InterruptType::FIQ, true),
        BackendCall::VcpuSetPendingInterrupt { vcpu: 3, interrupt: 1, pending: true }
    );
    assert_eq!(
        cpu.get_trap_debug_exceptions_call(),
        BackendCall::VcpuGetTrapDebugExceptions { vcpu: 3 }
    );
    assert_eq!(
        cpu.set_trap_debug_exceptions_call(true),
        BackendCall::VcpuSetTrapDebugExceptions { vcpu: 3, trap: true }
    );
    assert_eq!(
        cpu.get_trap_debug_reg_accesses_call(),
        BackendCall::VcpuGetTrapDebugRegAccesses { vcpu: 3 }
    );
    assert_eq!(
        cpu.set_trap_debug_reg_accesses_call(false),
        BackendCall::VcpuSetTrapDebugRegAccesses { vcpu: 3, trap: false }
    );
}

#[test]
fn timer_calls_name_the_vcpu_and_the_setting() {
    let cpu = vcpu(11);
    assert_eq!(cpu.get_exec_time_call(), BackendCall::VcpuGetExecTime { vcpu: 11 });
    assert_eq!(cpu.get_vtimer_mask_call(), BackendCall::VcpuGetVtimerMask { vcpu: 11 });
    assert_eq!(
        cpu.set_vtimer_mask_call(true),
        BackendCall::VcpuSetVtimerMask { vcpu: 11, vtimer_is_masked: true }
    );
    assert_eq!(cpu.get_vtimer_offset_call(), BackendCall::VcpuGetVtimerOffset { vcpu: 11 });
    assert_eq!(
        cpu.set_vtimer_offset_call(0x1234),
        BackendCall::VcpuSetVtimerOffset { vcpu: 11, vtimer_offset: 0x1234 }
    );
}

#[test]
fn getters_hand_on_the_value_on_success_and_the_error_otherwise() {
    let mut cpu = vcpu(1);
    assert_eq!(cpu.get_register(Register::X1, HV_SUCCESS, 0xdead_beef), Ok(0xdead_beef));
    assert_eq!(
        cpu.get_register(Register::X1, HV_BAD_ARGUMENT, 5),
        Err(HypervisorError::BadArgument)
    );
    assert_eq!(
        cpu.get_system_register(SystemRegister::ESR_EL1, HV_SUCCESS, u64::MAX),
        Ok(u64::MAX)
    );
    assert_eq!(
        cpu.get_system_register(SystemRegister::ESR_EL1, HV_UNSUPPORTED, 1),
        Err(HypervisorError::Unsupported)
    );
    assert_eq!(cpu.get_pending_interrupt(InterruptType::IRQ, HV_SUCCESS, true), Ok(true));
    assert_eq!(cpu.get_pending_interrupt(InterruptType::IRQ, HV_SUCCESS, false), Ok(false));
    assert_eq!(
        cpu.get_pending_interrupt(InterruptType::FIQ, HV_ERROR, true),
        Err(HypervisorError::Error)
    );
    assert_eq!(cpu.get_trap_debug_exceptions(HV_SUCCESS, true), Ok(true));
    assert_eq!(cpu.get_trap_debug_exceptions(HV_BUSY, true), Err(HypervisorError::Busy));
    assert_eq!(cpu.get_trap_debug_reg_accesses(HV_SUCCESS, false), Ok(false));
    assert_eq!(cpu.get_trap_debug_reg_accesses(3, false), Err(HypervisorError::Unknown(3)));
    assert_eq!(cpu.get_exec_time(HV_SUCCESS, 123_456), Ok(123_456));
    assert_eq!(cpu.get_exec_time(HV_ERROR, 123_456), Err(HypervisorError::Error));
    assert_eq!(cpu.get_vtimer_mask(HV_SUCCESS, true), Ok(true));
    assert_eq!(cpu.get_vtimer_mask(HV_ERROR, true), Err(HypervisorError::Error));
    assert_eq!(cpu.get_vtimer_offset(HV_SUCCESS, 77), Ok(77));
    assert_eq!(cpu.get_vtimer_offset(HV_ERROR, 77), Err(HypervisorError::Error));
}

#[test]
fn setters_go_by_the_status() {
    let mut cpu = vcpu(1);
    assert_eq!(cpu.set_register(Register::X1, 1, HV_SUCCESS), Ok(()));
    assert_eq!(
        cpu.set_register(Register::X1, 1, HV_BAD_ARGUMENT),
        Err(HypervisorError::BadArgument)
    );
    assert_eq!(cpu.set_system_register(SystemRegister::TCR_EL1, 1, HV_SUCCESS), Ok(()));
    assert_eq!(
        cpu.set_system_register(SystemRegister::TCR_EL1, 1, HV_ERROR),
        Err(HypervisorError::Error)
    );
    assert_eq!(cpu.set_pending_interrupt(InterruptType::IRQ, true, HV_SUCCESS), Ok(()));
    assert_eq!(
        cpu.set_pending_interrupt(InterruptType::IRQ, true, HV_BUSY),
        Err(HypervisorError::Busy)
    );
    assert_eq!(cpu.set_trap_debug_exceptions(true, HV_SUCCESS), Ok(()));
    assert_eq!(cpu.set_trap_debug_exceptions(true, HV_ERROR), Err(HypervisorError::Error));
    assert_eq!(cpu.set_trap_debug_reg_accesses(true, HV_SUCCESS), Ok(()));
    assert_eq!(cpu.set_trap_debug_reg_accesses(true, HV_ERROR), Err(HypervisorError::Error));
    assert_eq!(cpu.set_vtimer_mask(false, HV_SUCCESS), Ok(()));
    assert_eq!(cpu.set_vtimer_mask(false, HV_ERROR), Err(HypervisorError::Error));
    assert_eq!(cpu.set_vtimer_offset(9, HV_SUCCESS), Ok(()));
    assert_eq!(cpu.set_vtimer_offset(9, HV_ERROR), Err(HypervisorError::Error));
    assert_eq!(cpu.exit(HV_SUCCESS), Ok(()));
    assert_eq!(cpu.exit(HV_ERROR), Err(HypervisorError::Error));
    assert_eq!(cpu.get_handle(), 1);
}

#[test]
fn exit_call_names_this_vcpu_alone() {
    let cpu = vcpu(42);
    assert_eq!(cpu.exit_call(), BackendCall::VcpusExit { vcpus: vec![42], vcpu_count: 1 });
}

#[test]
fn vcpu_teardown_forces_an_exit_then_destroys() {
    let cpu = vcpu(42);
    assert_eq!(
        cpu.teardown_calls(),
        vec![
            BackendCall::VcpusExit { vcpus: vec![42], vcpu_count: 1 },
            BackendCall::VcpuDestroy { vcpu: 42 },
        ]
    );
}

#[test]
fn configuration_queries_name_the_object_and_the_register() {
    let vm = VirtualMachine::new(None, HV_SUCCESS).unwrap();
    let configuration = vm.create_vcpu_configuration(0x5000);
    assert_eq!(
        configuration.get_feature_register_call(FeatureRegister::CTR_EL0),
        BackendCall::VcpuConfigGetFeatureReg { config: 0x5000, feature_register: 9 }
    );
    assert_eq!(
        configuration.get_ccsidr_el1_sys_register_values_call(CacheType::Instruction),
        BackendCall::VcpuConfigGetCcsidrEl1SysRegValues { config: 0x5000, cache_type: 1 }
    );
    assert_eq!(configuration.release_call(), BackendCall::Release { object: 0x5000 });
    assert_eq!(
        configuration.get_feature_register(FeatureRegister::CTR_EL0, HV_SUCCESS, 0x8444_c004),
        Ok(0x8444_c004)
    );
    assert_eq!(
        configuration.get_feature_register(FeatureRegister::CTR_EL0, HV_ERROR, 0x8444_c004),
        Err(HypervisorError::Error)
    );
    let values = [1, 2, 3, 4, 5, 6, 7, 8];
    assert_eq!(
        configuration.get_ccsidr_el1_sys_register_values(CacheType::Data, HV_SUCCESS, values),
        Ok(values)
    );
    assert_eq!(
        configuration.get_ccsidr_el1_sys_register_values(CacheType::Data, HV_UNSUPPORTED, values),
        Err(HypervisorError::Unsupported)
    );
}

/// Implemented once for every type, and a second time for the types that can be sent to another
/// thread: naming an item of it without saying which is unambiguous only for a type that cannot.
trait StaysOnItsThread<Marker> {
    fn checked() {}
}

impl<T: ?Sized> StaysOnItsThread<()> for T {}

impl<T: ?Sized + Send> StaysOnItsThread<u8> for T {}

#[test]
fn vcpu_cannot_be_sent_to_another_thread() {
    // this line compiles only because `VirtualCpu` is not `Send`
    <VirtualCpu as StaysOnItsThread<_>>::checked();
}
