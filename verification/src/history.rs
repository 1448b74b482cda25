//! Histories: what holds of a Virtual Machine controller after any sequence of operations.
//!
//! The contracts of the operations say what one call does. The statements here are about all
//! states a controller can reach and about calls that follow one another. They are made over
//! [`MachineState`], which is what every operation's contract speaks of.
use vstd::prelude::*;

use crate::allocation::{law_page_padded_keeps_the_bytes, page_aligned, page_padded, page_round_up};
use crate::error::{error_of_status, HypervisorError};
use crate::ffi::types::{hv_ipa_t, hv_return_t, HV_SUCCESS};
use crate::handle::{AllocationHandle, MappingHandle};
use crate::machine::MachineState;
use crate::mapping::VirtualMachineMapping;
use crate::permission::MemoryPermission;

verus! {

/// One operation that can change what a controller holds, with its arguments and, where the
/// backend has a say, the status that the backend answered.
pub enum MachineOp {
    /// A successful allocation of a region that holds `bytes`. (A failed one changes nothing.)
    Allocate {
        /// The content of the new region.
        bytes: Seq<u8>,
    },
    /// `deallocate(allocation)`.
    Deallocate {
        /// The allocation to destroy.
        allocation: AllocationHandle,
    },
    /// A write through the mutable slice of `allocation` that leaves `bytes` in the region.
    Write {
        /// The allocation written to.
        allocation: AllocationHandle,
        /// The content of the region afterwards.
        bytes: Seq<u8>,
    },
    /// `map(allocation, address, permission)`, answered by the backend with `status`.
    MapAt {
        /// The allocation to expose.
        allocation: AllocationHandle,
        /// The guest address.
        address: hv_ipa_t,
        /// The permission.
        permission: MemoryPermission,
        /// The backend's answer.
        status: hv_return_t,
    },
    /// `unmap(mapping)`, answered by the backend with `status`.
    Unmap {
        /// The mapping to remove.
        mapping: MappingHandle,
        /// The backend's answer.
        status: hv_return_t,
    },
    /// `reprotect(mapping, permission)`, answered by the backend with `status`.
    Reprotect {
        /// The mapping to change.
        mapping: MappingHandle,
        /// The new permission.
        permission: MemoryPermission,
        /// The backend's answer.
        status: hv_return_t,
    },
}

impl MachineState {
    /// The state after one operation.
    pub open spec fn step(self, op: MachineOp) -> Self {
        match op {
            MachineOp::Allocate { bytes } => self.allocate(bytes),
            MachineOp::Deallocate { allocation } => self.deallocate(allocation),
            MachineOp::Write { allocation, bytes } => if self.allocations.contains(allocation) {
                self.write(allocation, bytes)
            } else {
                self
            },
            MachineOp::MapAt { allocation, address, permission, status } => self.map(
                allocation,
                address,
                permission,
                status,
            ),
            MachineOp::Unmap { mapping, status } => self.unmap(mapping, status),
            MachineOp::Reprotect { mapping, permission, status } => self.reprotect(
                mapping,
                permission,
                status,
            ),
        }
    }

    /// The state of a controller that was created and then went through `ops`, in order.
    pub open spec fn replay(ops: Seq<MachineOp>) -> Self
        decreases ops.len(),
    {
        if ops.len() == 0 {
            Self::empty()
        } else {
            Self::replay(ops.drop_last()).step(ops.last())
        }
    }

    /// Neither counter has run out: both counts are numbers a 64-bit counter can hold.
    pub open spec fn counted(self) -> bool {
        self.allocations.issued <= u64::MAX && self.mappings.issued <= u64::MAX
    }
}

/// The state in which step `i` of `ops` begins.
pub open spec fn state_before(ops: Seq<MachineOp>, i: int) -> MachineState {
    MachineState::replay(ops.take(i))
}

/// The allocation handle that step `i` of `ops` issues, if it issues one.
pub open spec fn allocation_issued(ops: Seq<MachineOp>, i: int) -> Option<AllocationHandle> {
    if ops[i] is Allocate {
        Some(state_before(ops, i).allocations.next_handle())
    } else {
        None
    }
}

/// The mapping handle that step `i` of `ops` issues, if it issues one.
pub open spec fn mapping_issued(ops: Seq<MachineOp>, i: int) -> Option<MappingHandle> {
    match ops[i] {
        MachineOp::MapAt { allocation, status, .. } => match state_before(ops, i).map_result(
            allocation,
            status,
        ) {
            Ok(issued) => Some(issued),
            Err(_) => None,
        },
        _ => None,
    }
}

/// Each step begins in the state that the step before it left.
pub proof fn lemma_state_before(ops: Seq<MachineOp>, i: int)
    requires
        0 <= i < ops.len(),
    ensures
        state_before(ops, i + 1) == state_before(ops, i).step(ops[i]),
        state_before(ops, 0) == MachineState::empty(),
        state_before(ops, ops.len() as int) == MachineState::replay(ops),
{
    assert(ops.take(i + 1).drop_last() =~= ops.take(i));
    assert(ops.take(ops.len() as int) =~= ops);
}

/// No operation takes a count back: handles issued stay issued.
pub proof fn lemma_step_counts(state: MachineState, op: MachineOp)
    ensures
        state.allocations.issued <= state.step(op).allocations.issued <= state.allocations.issued
            + 1,
        state.mappings.issued <= state.step(op).mappings.issued <= state.mappings.issued + 1,
        op is Allocate ==> state.step(op).allocations.issued == state.allocations.issued + 1,
        op matches MachineOp::MapAt { allocation, status, .. } && state.map_result(
            allocation,
            status,
        ) is Ok
            ==> state.step(op).mappings.issued == state.mappings.issued + 1,
{
}

/// Along a history the counts only grow.
pub proof fn lemma_counts_grow(ops: Seq<MachineOp>, i: int, j: int)
    requires
        0 <= i <= j <= ops.len(),
    ensures
        state_before(ops, i).allocations.issued <= state_before(ops, j).allocations.issued,
        state_before(ops, i).mappings.issued <= state_before(ops, j).mappings.issued,
    decreases j - i,
{
    if i < j {
        lemma_counts_grow(ops, i, j - 1);
        lemma_state_before(ops, j - 1);
        lemma_step_counts(state_before(ops, j - 1), ops[j - 1]);
    }
}

/// One operation keeps a well-formed state well formed, as long as the counter it draws on, if
/// any, has not run out.
pub proof fn lemma_step_wf(state: MachineState, op: MachineOp)
    requires
        state.wf(),
        state.step(op).counted(),
    ensures
        state.step(op).wf(),
{
    match op {
        MachineOp::Allocate { bytes } => state.lemma_allocate_wf(bytes),
        MachineOp::Deallocate { allocation } => state.lemma_deallocate_wf(allocation),
        MachineOp::Write { allocation, bytes } => {
            if state.allocations.contains(allocation) {
                state.lemma_write_wf(allocation, bytes);
            }
        },
        MachineOp::MapAt { allocation, address, permission, status } => state.lemma_map_wf(
            allocation,
            address,
            permission,
            status,
        ),
        MachineOp::Unmap { mapping, status } => state.lemma_unmap_wf(mapping, status),
        MachineOp::Reprotect { mapping, permission, status } => state.lemma_reprotect_wf(
            mapping,
            permission,
            status,
        ),
    }
}

/// Every state that a controller can reach is well formed: whatever was allocated, written,
/// mapped, reprotected, unmapped and deallocated, and whatever the backend answered, every live
/// handle was issued, no two mappings share a handle, and no mapping exposes an allocation that
/// is gone.
pub proof fn law_reachable_states_are_well_formed(ops: Seq<MachineOp>)
    requires
        MachineState::replay(ops).counted(),
    ensures
        MachineState::replay(ops).wf(),
    decreases ops.len(),
{
    if ops.len() > 0 {
        let last = ops.len() - 1;
        lemma_state_before(ops, last);
        lemma_counts_grow(ops, last, ops.len() as int);
        assert(ops.take(last) =~= ops.drop_last());
        law_reachable_states_are_well_formed(ops.drop_last());
        lemma_step_wf(MachineState::replay(ops.drop_last()), ops.last());
    }
}

/// Handles are never reused. Of two steps of a history that each issue a handle of the same
/// kind, the later one issues the larger handle, whatever was deallocated or unmapped in
/// between; so all handles issued in a namespace are pairwise distinct, and none is zero.
pub proof fn law_handles_are_never_reused(ops: Seq<MachineOp>, i: int, j: int)
    requires
        MachineState::replay(ops).counted(),
        0 <= i < j < ops.len(),
    ensures
        allocation_issued(ops, i) matches Some(first) ==> first.0 >= 1 && (allocation_issued(
            ops,
            j,
        ) matches Some(second) ==> first.0 < second.0),
        mapping_issued(ops, i) matches Some(first) ==> first.0 >= 1 && (mapping_issued(
            ops,
            j,
        ) matches Some(second) ==> first.0 < second.0),
{
    lemma_state_before(ops, i);
    lemma_state_before(ops, j);
    lemma_step_counts(state_before(ops, i), ops[i]);
    lemma_step_counts(state_before(ops, j), ops[j]);
    lemma_counts_grow(ops, i + 1, j);
    lemma_counts_grow(ops, j + 1, ops.len() as int);
}

/// Whether step `j` of `ops` is a deallocation of `handle` that is granted.
pub open spec fn deallocates(ops: Seq<MachineOp>, j: int, handle: AllocationHandle) -> bool {
    ops[j] == (MachineOp::Deallocate { allocation: handle }) && state_before(
        ops,
        j,
    ).deallocate_result(handle) is Ok
}

/// Whether some step after step `i` of `ops` deallocates `handle`.
pub open spec fn deallocated_after(ops: Seq<MachineOp>, i: int, handle: AllocationHandle) -> bool {
    exists|j: int| i < j < ops.len() && #[trigger] deallocates(ops, j, handle)
}

/// Whether `handle` was allocated in the course of `ops` and not deallocated since.
pub open spec fn allocated_and_not_deallocated(
    ops: Seq<MachineOp>,
    handle: AllocationHandle,
) -> bool {
    exists|i: int|
        0 <= i < ops.len() && #[trigger] allocation_issued(ops, i) == Some(handle)
            && !deallocated_after(ops, i, handle)
}

/// What a step does and issues does not depend on the steps that follow it.
proof fn lemma_step_in_prefix(ops: Seq<MachineOp>, i: int)
    requires
        0 <= i < ops.len() - 1,
    ensures
        state_before(ops.drop_last(), i) == state_before(ops, i),
        allocation_issued(ops.drop_last(), i) == allocation_issued(ops, i),
        forall|handle: AllocationHandle|
            deallocates(ops.drop_last(), i, handle) == deallocates(ops, i, handle),
{
    assert(ops.drop_last().take(i) =~= ops.take(i));
}

/// After any sequence of operations the controller holds exactly the allocations that were made
/// and not deallocated since: every such handle is live, and no other handle is. A handle that
/// is not among them, whether it was never issued or was retired, is refused with
/// `InvalidHandle`.
pub proof fn law_registry_holds_what_was_allocated_and_not_deallocated(
    ops: Seq<MachineOp>,
    handle: AllocationHandle,
)
    requires
        MachineState::replay(ops).counted(),
    ensures
        MachineState::replay(ops).allocations.contains(handle) <==> allocated_and_not_deallocated(
            ops,
            handle,
        ),
        !allocated_and_not_deallocated(ops, handle) ==> MachineState::replay(ops).deallocate_result(
            handle,
        ) == Err::<(), HypervisorError>(HypervisorError::InvalidHandle),
    decreases ops.len(),
{
    let state = MachineState::replay(ops);
    if ops.len() == 0 {
        assert(!state.allocations.contains(handle));
    } else {
        let last = ops.len() - 1;
        let front = ops.drop_last();
        let begin = MachineState::replay(front);
        assert(ops.take(last) =~= front);
        assert(state_before(ops, last) == begin);
        lemma_state_before(ops, last);
        lemma_counts_grow(ops, last, ops.len() as int);
        law_registry_holds_what_was_allocated_and_not_deallocated(front, handle);
        law_reachable_states_are_well_formed(front);
        // the steps of the front do in `ops` what they do in `front`
        assert forall|i: int| 0 <= i < last implies allocation_issued(front, i)
            == allocation_issued(ops, i) && deallocates(front, i, handle) == deallocates(
            ops,
            i,
            handle,
        ) by {
            lemma_step_in_prefix(ops, i);
        }
        // and are followed in `ops` by one step more
        assert forall|i: int| 0 <= i < last implies (deallocated_after(ops, i, handle) <==> (
        deallocated_after(front, i, handle) || deallocates(ops, last, handle))) by {
            if deallocated_after(front, i, handle) {
                let j = choose|j: int|
                    i < j < front.len() && #[trigger] deallocates(front, j, handle);
                lemma_step_in_prefix(ops, j);
                assert(deallocates(ops, j, handle));
            }
            if deallocated_after(ops, i, handle) {
                let j = choose|j: int|
                    i < j < ops.len() && #[trigger] deallocates(ops, j, handle);
                if j < last {
                    lemma_step_in_prefix(ops, j);
                    assert(deallocates(front, j, handle));
                }
            }
        }
        assert(!deallocated_after(ops, last, handle));
        if allocated_and_not_deallocated(front, handle) {
            let i = choose|i: int|
                0 <= i < front.len() && #[trigger] allocation_issued(front, i) == Some(handle)
                    && !deallocated_after(front, i, handle);
            assert(allocation_issued(ops, i) == Some(handle));
            // the handle was issued before the last step, so the last step does not issue it
            lemma_state_before(ops, i);
            lemma_step_counts(state_before(ops, i), ops[i]);
            lemma_counts_grow(ops, i + 1, last);
        }
        if allocated_and_not_deallocated(ops, handle) {
            let i = choose|i: int|
                0 <= i < ops.len() && #[trigger] allocation_issued(ops, i) == Some(handle)
                    && !deallocated_after(ops, i, handle);
            if i < last {
                assert(allocation_issued(front, i) == Some(handle));
                assert(!deallocated_after(front, i, handle));
            }
        }
        match ops[last] {
            MachineOp::Allocate { bytes } => {
                assert(state.allocations.contains(handle) <==> (begin.allocations.contains(handle)
                    || handle == begin.allocations.next_handle()));
                if handle == begin.allocations.next_handle() {
                    assert(allocation_issued(ops, last) == Some(handle));
                }
            },
            MachineOp::Deallocate { allocation } => {
                assert(state.allocations.contains(handle) <==> (begin.allocations.contains(handle)
                    && !deallocates(ops, last, handle)));
            },
            _ => {
                assert(state.allocations.contains(handle) <==> begin.allocations.contains(handle));
            },
        }
    }
}

/// An allocation that at least one mapping exposes cannot be deallocated: the attempt fails with
/// `AllocationStillMapped` and changes nothing.
pub proof fn law_mapped_allocation_is_not_deallocated(
    state: MachineState,
    handle: AllocationHandle,
)
    requires
        state.wf(),
        state.mappings.references(handle),
    ensures
        state.deallocate_result(handle) == Err::<(), HypervisorError>(
            HypervisorError::AllocationStillMapped,
        ),
        state.deallocate(handle) == state,
{
    let i = choose|i: int|
        0 <= i < state.mappings.records.len()
            && #[trigger] state.mappings.records[i].allocation_handle == handle;
    assert(state.allocations.contains(state.mappings.records[i].allocation_handle));
}

/// Once the last mapping that exposes an allocation is unmapped, the allocation can be
/// deallocated: if `mapping` is the only mapping of `handle` and the backend accepts its
/// unmapping, `deallocate(handle)` succeeds afterwards and removes the allocation.
pub proof fn law_unmapped_allocation_is_deallocated(
    state: MachineState,
    handle: AllocationHandle,
    mapping: MappingHandle,
)
    requires
        state.wf(),
        state.mappings.get(mapping) matches Ok(record) && record.allocation_handle == handle,
        forall|i: int|
            0 <= i < state.mappings.records.len() && (
            #[trigger] state.mappings.records[i]).allocation_handle == handle
                ==> state.mappings.records[i].mapping_handle == mapping,
    ensures
        state.unmap(mapping, HV_SUCCESS).deallocate_result(handle) == Ok::<(), HypervisorError>(()),
        !state.unmap(mapping, HV_SUCCESS).deallocate(handle).allocations.contains(handle),
{
    let after = state.unmap(mapping, HV_SUCCESS);
    let at = state.mappings.index_of(mapping);
    state.mappings.lemma_remove_wf(mapping);
    assert(state.allocations.contains(state.mappings.records[at].allocation_handle));
    if after.mappings.references(handle) {
        let i = choose|i: int|
            0 <= i < after.mappings.records.len()
                && #[trigger] after.mappings.records[i].allocation_handle == handle;
        let k = if i < at { i } else { i + 1 };
        assert(after.mappings.records[i] == state.mappings.records[k]);
        assert(state.mappings.records[k].mapping_handle == mapping);
        after.mappings.lemma_index_of(i);
    }
}

/// What `allocate_from` stores is what `get_allocation_slice` hands back: a region that begins
/// with the source bytes, holds only zeroes after them, and is as long as the source rounded up
/// to whole pages.
pub proof fn law_allocated_bytes_are_read_back(state: MachineState, source: Seq<u8>)
    ensures
        ({
            let region = state.allocate(page_padded(source)).allocations.slice(
                state.allocations.next_handle(),
            );
            &&& region matches Ok(bytes)
            &&& bytes.len() == page_round_up(source.len())
            &&& bytes.subrange(0, source.len() as int) == source
            &&& forall|i: int| source.len() <= i < bytes.len() ==> bytes[i] == 0
        }),
{
    law_page_padded_keeps_the_bytes(source);
}

/// The mapping operations are atomic with respect to failure: when the backend refuses a map, an
/// unmap or a reprotect, the operation reports the backend's error and the controller holds
/// exactly what it held before. No record is added, changed or removed, and no handle is used
/// up.
pub proof fn law_backend_failure_changes_nothing(
    state: MachineState,
    allocation: AllocationHandle,
    mapping: MappingHandle,
    address: hv_ipa_t,
    permission: MemoryPermission,
    status: hv_return_t,
)
    requires
        status != HV_SUCCESS,
    ensures
        state.map(allocation, address, permission, status) == state,
        state.unmap(mapping, status) == state,
        state.reprotect(mapping, permission, status) == state,
        state.allocations.contains(allocation) ==> state.map_result(allocation, status) == Err::<
            MappingHandle,
            HypervisorError,
        >(error_of_status(status)),
        state.mappings.contains(mapping) ==> state.mapping_result(mapping, status) == Err::<
            (),
            HypervisorError,
        >(error_of_status(status)),
{
}

/// After a successful `reprotect(mapping, permission)`, `get_mapping_info(mapping)` returns the
/// record it returned before with the permission replaced and every other field as it was, and
/// the record of every other mapping is untouched.
pub proof fn law_reprotect_replaces_the_permission_only(
    state: MachineState,
    mapping: MappingHandle,
    permission: MemoryPermission,
    other: MappingHandle,
)
    requires
        state.wf(),
        state.mappings.contains(mapping),
        other != mapping,
    ensures
        ({
            let before = state.mappings.get(mapping);
            let after = state.reprotect(mapping, permission, HV_SUCCESS).mappings.get(mapping);
            &&& before matches Ok(old_record)
            &&& after == Ok::<VirtualMachineMapping, HypervisorError>(
                old_record.with_permission(permission),
            )
            &&& after matches Ok(new_record)
            &&& new_record.permission == permission
            &&& new_record.allocation_handle == old_record.allocation_handle
            &&& new_record.mapping_handle == old_record.mapping_handle
            &&& new_record.address == old_record.address
            &&& new_record.size == old_record.size
        }),
        state.reprotect(mapping, permission, HV_SUCCESS).mappings.get(other) == state.mappings.get(
            other,
        ),
{
    state.mappings.lemma_update_permission_wf(mapping, permission);
    let after = state.reprotect(mapping, permission, HV_SUCCESS);
    assert(after.mappings.contains(mapping) == state.mappings.contains(mapping));
    assert(after.mappings.contains(other) == state.mappings.contains(other));
    if state.mappings.contains(other) {
        assert(after.mappings.index_of(other) == state.mappings.index_of(other));
        assert(state.mappings.records[state.mappings.index_of(other)].mapping_handle == other);
    }
}

impl MachineState {
    /// Whether sizes agree: every region is a whole number of pages, and every mapping is as
    /// large as the allocation it exposes.
    pub open spec fn sizes_agree(self) -> bool {
        &&& forall|h: AllocationHandle| #[trigger]
            self.allocations.contains(h) ==> page_aligned(self.allocations.regions[h].len())
                && self.allocations.regions[h].len() <= usize::MAX
        &&& forall|i: int|
            0 <= i < self.mappings.records.len() ==> self.covers(
                #[trigger] self.mappings.records[i],
            )
    }

    /// Whether `mapping` is exactly as large as the allocation it exposes.
    pub open spec fn covers(self, mapping: VirtualMachineMapping) -> bool {
        mapping.size == self.allocations.regions[mapping.allocation_handle].len()
    }
}

/// Whether `op`, applied to `state`, treats sizes as the operations of a controller do: an
/// allocation makes a region of whole pages that fits the address space, and a write through a
/// slice leaves the region as long as it was.
pub open spec fn keeps_sizes(state: MachineState, op: MachineOp) -> bool {
    match op {
        MachineOp::Allocate { bytes } => page_aligned(bytes.len()) && bytes.len() <= usize::MAX,
        MachineOp::Write { allocation, bytes } => state.allocations.contains(allocation)
            ==> bytes.len() == state.allocations.regions[allocation].len(),
        _ => true,
    }
}

/// One operation that keeps sizes leaves them in agreement.
pub proof fn lemma_step_sizes(state: MachineState, op: MachineOp)
    requires
        state.wf(),
        state.sizes_agree(),
        state.step(op).counted(),
        keeps_sizes(state, op),
    ensures
        state.step(op).sizes_agree(),
{
    let after = state.step(op);
    assert forall|h: AllocationHandle| #[trigger]
        after.allocations.contains(h) implies page_aligned(after.allocations.regions[h].len())
        && after.allocations.regions[h].len() <= usize::MAX by {
        // a region is new, overwritten at its old size, or as it was
        assert(state.allocations.contains(h) ==> page_aligned(state.allocations.regions[h].len()));
    }
    match op {
        MachineOp::Allocate { bytes } => {
            state.lemma_allocate_wf(bytes);
            assert forall|i: int| 0 <= i < after.mappings.records.len() implies after.covers(
                #[trigger] after.mappings.records[i],
            ) by {
                assert(state.allocations.contains(state.mappings.records[i].allocation_handle));
            }
        },
        MachineOp::Deallocate { allocation } => {
            assert forall|i: int| 0 <= i < after.mappings.records.len() implies after.covers(
                #[trigger] after.mappings.records[i],
            ) by {
                assert(state.mappings.records[i].allocation_handle == allocation
                    ==> state.mappings.references(allocation));
            }
        },
        MachineOp::Write { allocation, bytes } => {
            assert forall|i: int| 0 <= i < after.mappings.records.len() implies after.covers(
                #[trigger] after.mappings.records[i],
            ) by {
                assert(state.allocations.contains(state.mappings.records[i].allocation_handle));
            }
        },
        MachineOp::MapAt { allocation, address, permission, status } => {
            assert forall|i: int| 0 <= i < after.mappings.records.len() implies after.covers(
                #[trigger] after.mappings.records[i],
            ) by {
                if i < state.mappings.records.len() {
                    assert(after.mappings.records[i] == state.mappings.records[i]);
                }
            }
        },
        MachineOp::Unmap { mapping, status } => {
            if state.mapping_result(mapping, status) is Ok {
                let at = state.mappings.index_of(mapping);
                assert forall|i: int| 0 <= i < after.mappings.records.len() implies after.covers(
                    #[trigger] after.mappings.records[i],
                ) by {
                    let k = if i < at { i } else { i + 1 };
                    assert(after.mappings.records[i] == state.mappings.records[k]);
                }
            }
        },
        MachineOp::Reprotect { mapping, permission, status } => {
            if state.mapping_result(mapping, status) is Ok {
                assert forall|i: int| 0 <= i < after.mappings.records.len() implies after.covers(
                    #[trigger] after.mappings.records[i],
                ) by {
                    assert(state.mappings.records[i].size == after.mappings.records[i].size);
                    assert(state.mappings.records[i].allocation_handle
                        == after.mappings.records[i].allocation_handle);
                }
            }
        },
    }
}

/// A region never changes its size and a mapping never outgrows its allocation: as long as
/// every step keeps sizes, every state that a controller can reach has regions of whole pages
/// only, and mappings that are exactly as large as the allocation they were created from.
pub proof fn law_sizes_agree(ops: Seq<MachineOp>)
    requires
        MachineState::replay(ops).counted(),
        forall|i: int|
            0 <= i < ops.len() ==> keeps_sizes(#[trigger] state_before(ops, i), ops[i]),
    ensures
        MachineState::replay(ops).sizes_agree(),
    decreases ops.len(),
{
    if ops.len() > 0 {
        let last = ops.len() - 1;
        let front = ops.drop_last();
        assert(ops.take(last) =~= front);
        lemma_state_before(ops, last);
        lemma_counts_grow(ops, last, ops.len() as int);
        assert forall|i: int| 0 <= i < front.len() implies keeps_sizes(
            #[trigger] state_before(front, i),
            front[i],
        ) by {
            assert(front.take(i) =~= ops.take(i));
            assert(keeps_sizes(state_before(ops, i), ops[i]));
        }
        law_sizes_agree(front);
        law_reachable_states_are_well_formed(front);
        assert(keeps_sizes(state_before(ops, last), ops[last]));
        lemma_step_sizes(MachineState::replay(front), ops[last]);
    }
}

} // verus!
