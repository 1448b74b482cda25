//! Apple Hypervisor
//!
//! The guest-memory registries and the vCPU control layer that sit between a host process and
//! the Hypervisor Framework on Apple Silicon, verified with Verus.
//!
//! # Shape
//!
//! The crate holds the decisions of that layer and none of its effects. It owns the backing
//! memory of the guest, knows which allocation is mapped where and with which permission, issues
//! the handles, turns register names into the framework's identifiers and the framework's status
//! codes and exit records into results. It never calls the framework.
//!
//! An operation that involves the framework therefore comes as two functions. The first, named
//! `…_call`, returns the [`BackendCall`] that is due, or the local error that makes the call
//! pointless. The second carries the operation's own name, takes the operation's arguments
//! followed by what the framework answered, and says what the operation returns; where the
//! answer is a failure, it changes nothing:
//!
//! ```ignore
//! let call = machine.map_call(allocation, 0x20000, MemoryPermission::read_execute())?;
//! let status = backend.perform(call);
//! let mapping = machine.map(allocation, 0x20000, MemoryPermission::read_execute(), status)?;
//! ```
//!
//! # What is proved
//!
//! Every function states what it returns and how it changes the state, over [`MachineState`]:
//! a map from allocation handles to bytes, a sequence of mapping records, and the two counts of
//! handles issued. The module [`history`] holds the statements about all reachable states and
//! about operations that follow one another: no mapping ever exposes an allocation that is gone,
//! no handle is ever issued twice, a mapped allocation cannot be deallocated, and a call that the
//! backend refuses leaves everything as it was.
pub mod allocation;
pub mod backend;
pub mod error;
pub mod ffi;
pub mod handle;
pub mod history;
pub mod machine;
pub mod mapping;
pub mod permission;
pub mod register;
pub mod vcpu;

pub use allocation::{AllocationRegistry, AllocationTable, VirtualMachineAllocation, PAGE_SIZE};
pub use backend::BackendCall;
pub use error::{convert_hv_reply, convert_hv_return, HypervisorError};
pub use ffi::types::{hv_ipa_t, hv_vcpu_t};
pub use handle::{AllocationHandle, Counter, MappingHandle};
pub use history::MachineOp;
pub use machine::{MachineState, VirtualMachine, VirtualMachineConfiguration};
pub use mapping::{MappingRegistry, MappingTable, VirtualMachineMapping};
pub use permission::MemoryPermission;
pub use register::{CacheType, FeatureRegister, InterruptType, Register, SystemRegister};
pub use vcpu::{VirtualCpu, VirtualCpuConfiguration, VirtualCpuExitReason};
