//! Host backing memory for guest RAM, and the registry that owns it.
use vstd::prelude::*;

use crate::error::HypervisorError;
use crate::handle::{AllocationHandle, Counter};
use crate::mapping::MappingRegistry;

verus! {

/// The size of a page.
pub const PAGE_SIZE: usize = 0x10000;

/// Whether `size` is a whole number of pages.
pub open spec fn page_aligned(size: nat) -> bool {
    size % (PAGE_SIZE as nat) == 0
}

/// `size` rounded up to the page size: the least multiple of [`PAGE_SIZE`] that is not below it
/// (see [`law_page_round_up_is_least`]).
pub open spec fn page_round_up(size: nat) -> nat {
    if page_aligned(size) {
        size
    } else {
        (size + PAGE_SIZE - size % (PAGE_SIZE as nat)) as nat
    }
}

/// A region of `len` zero bytes.
pub open spec fn zeroed(len: nat) -> Seq<u8> {
    Seq::new(len, |i: int| 0u8)
}

/// `bytes` followed by as many zero bytes as it takes to reach a whole number of pages.
pub open spec fn page_padded(bytes: Seq<u8>) -> Seq<u8> {
    bytes + zeroed((page_round_up(bytes.len()) - bytes.len()) as nat)
}

/// The rounded size is a multiple of the page size, is not below `size`, and no smaller multiple
/// of the page size is.
pub proof fn law_page_round_up_is_least(size: nat)
    ensures
        page_aligned(page_round_up(size)),
        size <= page_round_up(size) < size + PAGE_SIZE,
        page_aligned(size) ==> page_round_up(size) == size,
        forall|other: nat| #[trigger]
            page_aligned(other) && size <= other ==> page_round_up(size) <= other,
{
    let rounded = page_round_up(size);
    assert forall|other: nat| #[trigger] page_aligned(other) && size <= other implies rounded
        <= other by {
        if other < rounded {
            // two multiples of the page size less than a page apart are equal
            assert(rounded - other < PAGE_SIZE);
            assert((rounded - other) % (PAGE_SIZE as int) == 0) by {
                vstd::arithmetic::div_mod::lemma_sub_mod_noop(
                    rounded as int,
                    other as int,
                    PAGE_SIZE as int,
                );
            }
            assert(false);
        }
    }
}

/// A padded region starts with the bytes it was made from, holds only zeroes after them, and is a
/// whole number of pages long.
pub proof fn law_page_padded_keeps_the_bytes(bytes: Seq<u8>)
    ensures
        page_padded(bytes).len() == page_round_up(bytes.len()),
        page_padded(bytes).subrange(0, bytes.len() as int) == bytes,
        forall|i: int| bytes.len() <= i < page_padded(bytes).len() ==> page_padded(bytes)[i] == 0,
        page_padded(Seq::<u8>::empty()) == zeroed(0),
{
    law_page_round_up_is_least(bytes.len());
    assert(page_padded(bytes).subrange(0, bytes.len() as int) =~= bytes);
    assert(page_padded(Seq::<u8>::empty()) =~= zeroed(0));
}

/// Represent a Virtual Machine allocation.
///
/// The backing memory is owned here and is released when the allocation is dropped.
#[derive(Debug)]
pub struct VirtualMachineAllocation {
    /// The backing memory, a whole number of pages.
    buffer: Vec<u8>,
    /// Associated handle.
    handle: AllocationHandle,
}

impl VirtualMachineAllocation {
    /// The bytes of the backing memory.
    pub closed spec fn bytes(&self) -> Seq<u8> {
        self.buffer@
    }

    /// The handle this allocation goes by.
    pub closed spec fn handle(&self) -> AllocationHandle {
        self.handle
    }

    /// Create a new allocation to use by the VirtualMachine.
    ///
    /// The memory is `size` rounded up to the page size, all zero. An allocation of nothing needs
    /// no memory and is always made. For anything more the host decides: `None` says that it had
    /// no memory to give. A size whose rounding does not fit the address space is never served.
    pub fn new(size: usize) -> (allocation: Option<Self>)
        ensures
            allocation matches Some(a) ==> a.handle() == AllocationHandle(0) && a.bytes() == zeroed(
                page_round_up(size as nat),
            ),
            page_round_up(size as nat) > usize::MAX ==> allocation is None,
            size == 0 ==> allocation is Some,
    {
        let rounded = match round_up_to_page(size) {
            Some(rounded) => rounded,
            None => { return None; },
        };
        let mut buffer: Vec<u8> = Vec::new();
        let reserved = reserve(&mut buffer, rounded);
        // an empty buffer filled up to the size is all zero
        assert(resized(buffer@, rounded as nat) =~= zeroed(rounded as nat));
        Self::from_reservation(buffer, rounded, reserved)
    }

    /// Create a new allocation that holds `source`, followed by zeroes up to the next page
    /// boundary. As with [`new`](Self::new), an allocation of nothing is always made, for
    /// anything more the host decides, and `None` says that it had no memory to give. The
    /// memory is asked for before a byte is copied.
    pub fn new_from(source: &[u8]) -> (allocation: Option<Self>)
        ensures
            allocation matches Some(a) ==> a.handle() == AllocationHandle(0) && a.bytes()
                == page_padded(source@),
            page_round_up(source@.len()) > usize::MAX ==> allocation is None,
            source@.len() == 0 ==> allocation is Some,
    {
        let rounded = match round_up_to_page(source.len()) {
            Some(rounded) => rounded,
            None => { return None; },
        };
        let mut buffer: Vec<u8> = Vec::new();
        let reserved = reserve(&mut buffer, rounded);
        if reserved {
            buffer.extend_from_slice(source);
        }
        proof {
            law_page_round_up_is_least(source@.len());
            assert(reserved ==> buffer@ =~= source@);
        }
        Self::from_reservation(buffer, rounded, reserved)
    }

    /// The allocation that comes of a request for `size` bytes once the host has answered it:
    /// none if the host refused; if it granted the request, what `buffer` holds, cut or filled
    /// up with zeroes to `size` bytes.
    pub fn from_reservation(buffer: Vec<u8>, size: usize, reserved: bool) -> (allocation: Option<
        Self,
    >)
        ensures
            match allocation {
                Some(a) => reserved && a.handle() == AllocationHandle(0) && a.bytes() == resized(
                    buffer@,
                    size as nat,
                ),
                None => !reserved,
            },
    {
        if !reserved {
            return None;
        }
        let mut filled = buffer;
        filled.resize(size, 0u8);
        assert(filled@ =~= resized(buffer@, size as nat));
        Some(VirtualMachineAllocation { buffer: filled, handle: AllocationHandle(0) })
    }
}

/// `bytes` brought to the length `len`: cut where it is longer, filled up with zeroes where it
/// is shorter.
pub open spec fn resized(bytes: Seq<u8>, len: nat) -> Seq<u8> {
    if len <= bytes.len() {
        bytes.subrange(0, len as int)
    } else {
        bytes + zeroed((len - bytes.len()) as nat)
    }
}

/// Ask the host for room for `size` more bytes in `buffer`. Room for nothing is always there;
/// for anything more the host decides. The content of `buffer` stays as it is either way.
fn reserve(buffer: &mut Vec<u8>, size: usize) -> (reserved: bool)
    ensures
        final(buffer)@ == old(buffer)@,
        size == 0 ==> reserved,
{
    if size == 0 {
        true
    } else {
        buffer.try_reserve(size).is_ok()
    }
}

/// `size` rounded up to the page size, unless that is more than a `usize` can hold.
pub fn round_up_to_page(size: usize) -> (rounded: Option<usize>)
    ensures
        match rounded {
            Some(rounded) => rounded == page_round_up(size as nat),
            None => page_round_up(size as nat) > usize::MAX,
        },
{
    let remainder = size % PAGE_SIZE;
    if remainder == 0 {
        Some(size)
    } else {
        size.checked_add(PAGE_SIZE - remainder)
    }
}

/// What an allocation registry holds, as mathematics: the live regions by handle, and how many
/// handles were issued so far.
pub struct AllocationTable {
    /// The bytes of each live allocation.
    pub regions: Map<AllocationHandle, Seq<u8>>,
    /// The number of handles issued so far, which is also the last handle issued.
    pub issued: nat,
}

impl AllocationTable {
    /// The table of a fresh registry: nothing live, nothing issued.
    pub open spec fn empty() -> Self {
        AllocationTable { regions: Map::empty(), issued: 0 }
    }

    /// Every live handle was issued: it is not zero and not above the last one issued.
    pub open spec fn wf(self) -> bool {
        forall|h: AllocationHandle| #[trigger]
            self.regions.contains_key(h) ==> 1 <= h.0 <= self.issued
    }

    /// Whether a further handle can be issued.
    pub open spec fn has_next(self) -> bool {
        self.issued < u64::MAX
    }

    /// The handle that the next allocation gets.
    pub open spec fn next_handle(self) -> AllocationHandle {
        AllocationHandle((self.issued + 1) as u64)
    }

    /// Whether `handle` names a live allocation.
    pub open spec fn contains(self, handle: AllocationHandle) -> bool {
        self.regions.contains_key(handle)
    }

    /// The table after a region holding `bytes` was added under the next handle.
    pub open spec fn allocate(self, bytes: Seq<u8>) -> Self {
        AllocationTable {
            regions: self.regions.insert(self.next_handle(), bytes),
            issued: self.issued + 1,
        }
    }

    /// What deallocating `handle` answers, given whether a mapping still exposes it: an unknown
    /// handle is refused, and so is one that is still mapped.
    pub open spec fn deallocate_result(self, handle: AllocationHandle, referenced: bool) -> Result<
        (),
        HypervisorError,
    > {
        if !self.contains(handle) {
            Err(HypervisorError::InvalidHandle)
        } else if referenced {
            Err(HypervisorError::AllocationStillMapped)
        } else {
            Ok(())
        }
    }

    /// The table without `handle`. The handle is gone for good: the count of issued handles
    /// does not go back.
    pub open spec fn remove(self, handle: AllocationHandle) -> Self {
        AllocationTable { regions: self.regions.remove(handle), issued: self.issued }
    }

    /// The table after deallocating `handle`: without the allocation if that was granted,
    /// unchanged if it was refused.
    pub open spec fn deallocate(self, handle: AllocationHandle, referenced: bool) -> Self {
        if self.deallocate_result(handle, referenced) is Ok {
            self.remove(handle)
        } else {
            self
        }
    }

    /// The table after the region of `handle` was overwritten with `bytes`.
    pub open spec fn write(self, handle: AllocationHandle, bytes: Seq<u8>) -> Self {
        AllocationTable { regions: self.regions.insert(handle, bytes), issued: self.issued }
    }

    /// What reading the region of `handle` answers.
    pub open spec fn slice(self, handle: AllocationHandle) -> Result<Seq<u8>, HypervisorError> {
        if self.contains(handle) {
            Ok(self.regions[handle])
        } else {
            Err(HypervisorError::InvalidHandle)
        }
    }
}

/// The allocation registry: owns the backing memory of every live allocation and issues their
/// handles.
#[derive(Debug)]
pub struct AllocationRegistry {
    /// Counter used for allocation identifier.
    counter: Counter,
    /// List of all allocations.
    list: Vec<VirtualMachineAllocation>,
}

impl View for AllocationRegistry {
    type V = AllocationTable;

    closed spec fn view(&self) -> AllocationTable {
        AllocationTable {
            regions: Map::new(
                |h: AllocationHandle| holds(self.list@, h),
                |h: AllocationHandle| self.list@[slot(self.list@, h)].buffer@,
            ),
            issued: self.counter@,
        }
    }
}

/// Whether some entry of `list` goes by `handle`.
spec fn holds(list: Seq<VirtualMachineAllocation>, handle: AllocationHandle) -> bool {
    exists|i: int| 0 <= i < list.len() && #[trigger] list[i].handle == handle
}

/// The place in `list` of an entry that goes by `handle`.
spec fn slot(list: Seq<VirtualMachineAllocation>, handle: AllocationHandle) -> int {
    choose|i: int| 0 <= i < list.len() && #[trigger] list[i].handle == handle
}

/// No two entries of `list` go by the same handle.
spec fn distinct(list: Seq<VirtualMachineAllocation>) -> bool {
    forall|i: int, j: int|
        0 <= i < list.len() && 0 <= j < list.len() && i != j ==> #[trigger] list[i].handle
            != #[trigger] list[j].handle
}

/// With distinct handles, the place of a handle is the one place where it stands.
proof fn lemma_slot(list: Seq<VirtualMachineAllocation>, i: int)
    requires
        distinct(list),
        0 <= i < list.len(),
    ensures
        holds(list, list[i].handle),
        slot(list, list[i].handle) == i,
{
    let h = list[i].handle;
    assert(holds(list, h));
    let j = slot(list, h);
    assert(list[j].handle == h);
}

impl AllocationRegistry {
    /// The registry's own invariant: handles are distinct and each was issued by the counter.
    pub closed spec fn wf(&self) -> bool {
        &&& distinct(self.list@)
        &&& forall|i: int|
            0 <= i < self.list@.len() ==> 1 <= (#[trigger] self.list@[i]).handle.0
                <= self.counter@
    }

    /// A well-formed registry holds a well-formed table.
    pub proof fn lemma_wf_view(&self)
        requires
            self.wf(),
        ensures
            self@.wf(),
            self@.issued <= u64::MAX,
    {
        self.counter.lemma_view_fits();
        assert forall|h: AllocationHandle| #[trigger] self@.regions.contains_key(h) implies 1
            <= h.0 <= self@.issued by {
            let i = slot(self.list@, h);
            assert(self.list@[i].handle == h);
        }
    }

    /// An empty registry.
    pub fn new() -> (registry: Self)
        ensures
            registry.wf(),
            registry@ == AllocationTable::empty(),
    {
        let registry = AllocationRegistry { counter: Counter::default(), list: Vec::new() };
        assert(registry@.regions =~= Map::empty());
        registry
    }

    /// Find an allocation by handle: its place in the list, or `InvalidHandle` if no live
    /// allocation goes by it.
    fn find_allocation_by_handle(&self, handle: AllocationHandle) -> (found: Result<
        usize,
        HypervisorError,
    >)
        requires
            self.wf(),
        ensures
            match found {
                Ok(index) => index < self.list@.len() && self.list@[index as int].handle == handle
                    && self@.contains(handle) && self@.regions[handle]
                    == self.list@[index as int].buffer@,
                Err(error) => error == HypervisorError::InvalidHandle && !self@.contains(handle),
            },
    {
        let mut index: usize = 0;
        while index < self.list.len()
            invariant
                self.wf(),
                index <= self.list@.len(),
                forall|i: int| 0 <= i < index ==> (#[trigger] self.list@[i]).handle != handle,
            decreases self.list@.len() - index,
        {
            if self.list[index].handle == handle {
                proof {
                    lemma_slot(self.list@, index as int);
                }
                return Ok(index);
            }
            index += 1;
        }
        Err(HypervisorError::InvalidHandle)
    }

    /// Whether a further handle can be issued, that is, whether a further allocation can be
    /// made.
    pub fn has_next(&self) -> (left: bool)
        ensures
            left == self@.has_next(),
    {
        self.counter.has_next_value()
    }

    /// Whether `handle` names a live allocation.
    pub fn contains(&self, handle: AllocationHandle) -> (known: bool)
        requires
            self.wf(),
        ensures
            known == self@.contains(handle),
    {
        self.find_allocation_by_handle(handle).is_ok()
    }

    /// Take `allocation` into the registry under a fresh handle, or report that the host had no
    /// memory to give when there is none to take.
    pub fn register(&mut self, allocation: Option<VirtualMachineAllocation>) -> (result: Result<
        AllocationHandle,
        HypervisorError,
    >)
        requires
            old(self).wf(),
            allocation is Some ==> old(self)@.has_next(),
        ensures
            final(self).wf(),
            match allocation {
                Some(a) => result == Ok::<AllocationHandle, HypervisorError>(
                    old(self)@.next_handle(),
                ) && final(self)@ == old(self)@.allocate(a.bytes()),
                None => result == Err::<AllocationHandle, HypervisorError>(
                    HypervisorError::NoResources,
                ) && *final(self) == *old(self),
            },
    {
        match allocation {
            None => Err(HypervisorError::NoResources),
            Some(mut allocation) => {
                let handle = AllocationHandle(self.counter.get_next_value());
                allocation.handle = handle;
                self.list.push(allocation);
                proof {
                    assert(self.list@.subrange(0, old(self).list@.len() as int) =~= old(
                        self,
                    ).list@);
                    lemma_view_push(old(self).list@, self.list@);
                    assert(self@.regions =~= old(self)@.allocate(allocation.bytes()).regions);
                }
                Ok(handle)
            },
        }
    }

    /// Create a new allocation: `size` bytes rounded up to the page size, all zero, under a fresh
    /// handle.
    ///
    /// Fails with `NoResources`, and changes nothing, when the host cannot provide the memory;
    /// it never can when the rounded size does not fit the address space, and it always can
    /// when nothing is asked for.
    pub fn allocate(&mut self, size: usize) -> (result: Result<AllocationHandle, HypervisorError>)
        requires
            old(self).wf(),
            old(self)@.has_next(),
        ensures
            final(self).wf(),
            match result {
                Ok(handle) => handle == old(self)@.next_handle() && final(self)@ == old(
                    self,
                )@.allocate(zeroed(page_round_up(size as nat))),
                Err(error) => error == HypervisorError::NoResources && *final(self) == *old(self),
            },
            page_round_up(size as nat) > usize::MAX ==> result is Err,
            size == 0 ==> result is Ok,
    {
        self.register(VirtualMachineAllocation::new(size))
    }

    /// Create a new allocation from data: as [`allocate`](Self::allocate) with the length of
    /// `source`, then `source` copied to the start of the region. What is left of the last page
    /// stays zero.
    pub fn allocate_from(&mut self, source: &[u8]) -> (result: Result<
        AllocationHandle,
        HypervisorError,
    >)
        requires
            old(self).wf(),
            old(self)@.has_next(),
        ensures
            final(self).wf(),
            match result {
                Ok(handle) => handle == old(self)@.next_handle() && final(self)@ == old(
                    self,
                )@.allocate(page_padded(source@)),
                Err(error) => error == HypervisorError::NoResources && *final(self) == *old(self),
            },
            page_round_up(source@.len()) > usize::MAX ==> result is Err,
            source@.len() == 0 ==> result is Ok,
    {
        self.register(VirtualMachineAllocation::new_from(source))
    }

    /// Destroy an allocation: its memory is released and its handle retired.
    ///
    /// An unknown handle is refused with `InvalidHandle`, and an allocation that some mapping in
    /// `mappings` still exposes with `AllocationStillMapped`; neither changes anything.
    pub fn deallocate(&mut self, handle: AllocationHandle, mappings: &MappingRegistry) -> (result:
        Result<(), HypervisorError>)
        requires
            old(self).wf(),
        ensures
            final(self).wf(),
            result == old(self)@.deallocate_result(handle, mappings@.references(handle)),
            final(self)@ == old(self)@.deallocate(handle, mappings@.references(handle)),
            result is Err ==> *final(self) == *old(self),
    {
        let index = match self.find_allocation_by_handle(handle) {
            Ok(index) => index,
            Err(error) => { return Err(error); },
        };
        // Ensure it's not in use.

        if mappings.is_allocation_referenced(handle) {
            return Err(HypervisorError::AllocationStillMapped);
        }
        self.list.remove(index);
        proof {
            lemma_view_remove(old(self).list@, index as int);
            assert(self@.regions =~= old(self)@.remove(handle).regions);
        }
        Ok(())
    }

    /// Gets a slice over the whole region of an allocation, or `InvalidHandle` if there is none.
    pub fn get_slice(&self, handle: AllocationHandle) -> (result: Result<&[u8], HypervisorError>)
        requires
            self.wf(),
        ensures
            match result {
                Ok(slice) => self@.slice(handle) == Ok::<Seq<u8>, HypervisorError>(slice@),
                Err(error) => self@.slice(handle) == Err::<Seq<u8>, HypervisorError>(error),
            },
    {
        match self.find_allocation_by_handle(handle) {
            Ok(index) => Ok(self.list[index].buffer.as_slice()),
            Err(error) => Err(error),
        }
    }

    /// Gets a mutable slice over the whole region of an allocation, or `InvalidHandle` if there
    /// is none. What the caller leaves in the slice is what the region holds afterwards; nothing
    /// else changes.
    pub fn get_mutable_slice(&mut self, handle: AllocationHandle) -> (result: Result<
        &mut [u8],
        HypervisorError,
    >)
        requires
            old(self).wf(),
        ensures
            final(self).wf(),
            match result {
                Ok(slice) => old(self)@.slice(handle) == Ok::<Seq<u8>, HypervisorError>(slice@)
                    && final(self)@ == old(self)@.write(handle, final(slice)@),
                Err(error) => old(self)@.slice(handle) == Err::<Seq<u8>, HypervisorError>(error)
                    && *final(self) == *old(self),
            },
    {
        let index = match self.find_allocation_by_handle(handle) {
            Ok(index) => index,
            Err(error) => { return Err(error); },
        };
        proof {
            assert forall|after: AllocationRegistry| written(*self, after, index as int) implies (
            #[trigger] after.wf()) by {
                lemma_view_write(self.list@, after.list@, index as int);
            }
            assert forall|after: AllocationRegistry| written(*self, after, index as int) implies (
            #[trigger] after@) == self@.write(handle, after.list@[index as int].buffer@) by {
                lemma_view_write(self.list@, after.list@, index as int);
                assert(after@.regions =~= self@.write(
                    handle,
                    after.list@[index as int].buffer@,
                ).regions);
            }
        }
        Ok(self.list[index].buffer.as_mut_slice())
    }
}

/// `after` is `before` with the memory at `index` overwritten: same counter, same handles, and
/// every other entry untouched.
spec fn written(before: AllocationRegistry, after: AllocationRegistry, index: int) -> bool {
    &&& after.counter == before.counter
    &&& after.list@.len() == before.list@.len()
    &&& after.list@[index].handle == before.list@[index].handle
    &&& forall|i: int|
        0 <= i < before.list@.len() && i != index ==> #[trigger] after.list@[i] == before.list@[i]
}

/// Taking an entry out leaves the others as they were, and its handle unknown.
proof fn lemma_view_remove(before: Seq<VirtualMachineAllocation>, index: int)
    requires
        distinct(before),
        0 <= index < before.len(),
    ensures
        distinct(before.remove(index)),
        !holds(before.remove(index), before[index].handle),
        forall|h: AllocationHandle|
            h != before[index].handle ==> (#[trigger] holds(before.remove(index), h) == holds(
                before,
                h,
            )),
        forall|h: AllocationHandle|
            h != before[index].handle && holds(before, h) ==> before.remove(index)[#[trigger] slot(
                before.remove(index),
                h,
            )] == before[slot(before, h)],
{
    let after = before.remove(index);
    let back = |i: int| if i < index { i } else { i + 1 };
    assert forall|i: int| 0 <= i < after.len() implies after[i] == before[back(i)] by {}
    assert forall|i: int, j: int|
        0 <= i < after.len() && 0 <= j < after.len() && i != j implies #[trigger] after[i].handle
        != #[trigger] after[j].handle by {
        assert(after[i] == before[back(i)]);
        assert(after[j] == before[back(j)]);
    }
    if holds(after, before[index].handle) {
        let i = slot(after, before[index].handle);
        assert(after[i] == before[back(i)]);
    }
    assert forall|h: AllocationHandle| h != before[index].handle implies (#[trigger] holds(after, h)
        == holds(before, h)) by {
        if holds(before, h) {
            let i = slot(before, h);
            let k = if i < index { i } else { i - 1 };
            assert(after[k] == before[back(k)]);
            assert(after[k].handle == h);
        }
        if holds(after, h) {
            let i = slot(after, h);
            assert(after[i] == before[back(i)]);
            assert(before[back(i)].handle == h);
        }
    }
    assert forall|h: AllocationHandle|
        h != before[index].handle && holds(before, h) implies after[#[trigger] slot(after, h)]
        == before[slot(before, h)] by {
        let i = slot(before, h);
        let k = if i < index { i } else { i - 1 };
        assert(after[k] == before[back(k)]);
        lemma_slot(after, k);
    }
}

/// Overwriting the memory of one entry leaves every handle where it was and every other entry
/// as it was.
proof fn lemma_view_write(
    before: Seq<VirtualMachineAllocation>,
    after: Seq<VirtualMachineAllocation>,
    index: int,
)
    requires
        distinct(before),
        0 <= index < before.len(),
        after.len() == before.len(),
        after[index].handle == before[index].handle,
        forall|i: int| 0 <= i < before.len() && i != index ==> #[trigger] after[i] == before[i],
    ensures
        distinct(after),
        forall|h: AllocationHandle| #[trigger] holds(after, h) == holds(before, h),
        forall|h: AllocationHandle|
            holds(before, h) ==> #[trigger] slot(after, h) == slot(before, h),
{
    assert forall|i: int, j: int|
        0 <= i < after.len() && 0 <= j < after.len() && i != j implies #[trigger] after[i].handle
        != #[trigger] after[j].handle by {
        assert(before[i].handle == after[i].handle);
        assert(before[j].handle == after[j].handle);
    }
    assert forall|h: AllocationHandle| #[trigger] holds(after, h) == holds(before, h) by {
        if holds(before, h) {
            let i = slot(before, h);
            assert(after[i].handle == h);
        }
        if holds(after, h) {
            let i = slot(after, h);
            assert(before[i].handle == h);
        }
    }
    assert forall|h: AllocationHandle| holds(before, h) implies #[trigger] slot(after, h) == slot(
        before,
        h,
    ) by {
        let i = slot(before, h);
        assert(after[i].handle == h);
        lemma_slot(after, i);
    }
}

/// Adding an entry under a handle that no entry goes by keeps the handles distinct, makes the new
/// handle known, and leaves every other handle where it was.
proof fn lemma_view_push(
    before: Seq<VirtualMachineAllocation>,
    after: Seq<VirtualMachineAllocation>,
)
    requires
        distinct(before),
        after.len() == before.len() + 1,
        after.subrange(0, before.len() as int) == before,
        !holds(before, after.last().handle),
    ensures
        distinct(after),
        holds(after, after.last().handle),
        slot(after, after.last().handle) == before.len(),
        forall|h: AllocationHandle|
            h != after.last().handle ==> (#[trigger] holds(after, h) == holds(before, h)),
        forall|h: AllocationHandle|
            h != after.last().handle && holds(before, h) ==> after[#[trigger] slot(after, h)]
                == before[slot(before, h)],
{
    let n = before.len() as int;
    assert forall|i: int| 0 <= i < n implies after[i] == before[i] by {
        assert(after.subrange(0, n)[i] == after[i]);
    }
    assert forall|i: int, j: int|
        0 <= i < after.len() && 0 <= j < after.len() && i != j implies #[trigger] after[i].handle
        != #[trigger] after[j].handle by {
        if i == n {
            assert(before[j].handle == after[j].handle);
        } else if j == n {
            assert(before[i].handle == after[i].handle);
        } else {
            assert(before[i].handle == after[i].handle);
            assert(before[j].handle == after[j].handle);
        }
    }
    lemma_slot(after, n);
    assert forall|h: AllocationHandle| h != after.last().handle implies (#[trigger] holds(after, h)
        == holds(before, h)) by {
        if holds(before, h) {
            let i = slot(before, h);
            assert(after[i].handle == h);
        }
        if holds(after, h) {
            let i = slot(after, h);
            assert(before[i].handle == h);
        }
    }
    assert forall|h: AllocationHandle|
        h != after.last().handle && holds(before, h) implies after[#[trigger] slot(after, h)]
        == before[slot(before, h)] by {
        let i = slot(before, h);
        assert(after[i].handle == h);
        lemma_slot(after, i);
    }
}

} // verus!
