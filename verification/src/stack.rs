use vstd::prelude::*;
use crate::codec::decoded;
use crate::codec::high_bits;
use crate::codec::low_bits;
use crate::codec::SinglePageAllocation;
use crate::codec::U16_MAX;

verus! {

/// The cursor after a push of `size` bytes, counted without truncation.
pub open spec fn top_after_allocate(top: u16, size: u16) -> int {
    top + size
}

/// Whether a pop of `allocation` is accepted: the stack is strictly LIFO, so
/// the popped range must end exactly at the current cursor.
pub open spec fn deallocate_accepted(top: u16, allocation: SinglePageAllocation) -> bool {
    top == allocation.offset + allocation.length
}

/// Manages the 64KiB memory page as a stack: a single cursor marks the first
/// free byte, allocation pushes it up, deallocation pops it back down.
#[derive(Copy, Clone, Debug)]
pub struct SinglePageStack {
    top: u16,
}

impl SinglePageStack {
    /// The cursor: the offset of the first free byte of the page.
    pub closed spec fn spec_top(&self) -> u16 {
        self.top
    }

    /// A stack resumed from the last known allocation on the page: the
    /// cursor sits immediately after it.
    pub fn new(last_allocation: SinglePageAllocation) -> (stack: Self)
        requires
            last_allocation.offset + last_allocation.length <= U16_MAX,
        ensures
            stack.spec_top() == last_allocation.offset + last_allocation.length,
    {
        SinglePageStack { top: last_allocation.offset + last_allocation.length }
    }

    /// A stack resumed from the wire word of the last known allocation. The
    /// word must decode to a real allocation, not an error code.
    pub fn from_encoded(encoded_last_allocation: u32) -> (stack: Self)
        requires
            decoded(encoded_last_allocation) is Ok,
        ensures
            stack.spec_top() == high_bits(encoded_last_allocation) + low_bits(
                encoded_last_allocation,
            ),
    {
        let last_allocation = SinglePageAllocation::new(encoded_last_allocation).unwrap();
        SinglePageStack::new(last_allocation)
    }

    /// Push: hands out the `size` bytes that start at the cursor and moves
    /// the cursor past them. The caller must have checked that the request
    /// fits in the free part of the page.
    pub fn allocate(&mut self, size: u16) -> (offset: u16)
        requires
            old(self).spec_top() + size <= U16_MAX,
        ensures
            offset == old(self).spec_top(),
            final(self).spec_top() == top_after_allocate(old(self).spec_top(), size),
    {
        let offset = self.top;
        self.top = self.top + size;
        offset
    }

    /// Pop: accepts `allocation` only if it is exactly the most recently
    /// allocated range, and then moves the cursor back to its start. Any
    /// other range is rejected and the stack is left unchanged.
    pub fn deallocate(&mut self, allocation: SinglePageAllocation) -> (result: Result<(), ()>)
        ensures
            result is Ok <==> deallocate_accepted(old(self).spec_top(), allocation),
            result is Ok ==> final(self).spec_top() == allocation.offset,
            result is Err ==> final(self).spec_top() == old(self).spec_top(),
    {
        if self.top as u32 == allocation.offset as u32 + allocation.length as u32 {
            self.top = allocation.offset;
            Ok(())
        } else {
            Err(())
        }
    }

    /// Read-only accessor for the cursor.
    pub fn top(self) -> (top: u16)
        ensures
            top == self.spec_top(),
    {
        self.top
    }
}

/// Push/pop duality: on an empty page a push of `n` bytes hands out offset 0
/// (the cursor itself) and moves the cursor to `n`; popping exactly that
/// range is then accepted, and moves the cursor back to the bottom of the
/// page, offset 0.
pub proof fn lemma_push_pop_duality(n: u16)
    ensures
        top_after_allocate(0, n) == n,
        ({
            let whole = SinglePageAllocation { offset: 0, length: n };
            deallocate_accepted(n, whole) && whole.offset == 0
        }),
{
}

impl Default for SinglePageStack {
    /// An empty page: the cursor sits at the bottom.
    fn default() -> (stack: Self)
        ensures
            stack.spec_top() == 0,
    {
        SinglePageStack { top: 0 }
    }
}

} // verus!
