use vstd::prelude::*;
use crate::memory_type_matches;

verus! {

/// The device-side facts that every build step consults: the memory-type
/// table reported by the physical device, the requirements mask its buffers
/// share, and the allocator state that hands out device addresses and
/// object handles.  Addresses and handles start at one, so zero never
/// denotes a live resource.
pub struct DeviceContext {
    /// One property-flag word per memory type, in device order.
    pub memory_types: Vec<u32>,
    /// The memory-requirements bitmask the device reports for its buffers:
    /// bit `i` set means memory type `i` can back a buffer.
    pub buffer_type_bits: u32,
    /// The next device address to hand out; addresses already handed out
    /// all lie below it.
    pub next_address: u64,
    /// The next object handle to hand out.
    pub next_handle: u64,
}

impl DeviceContext {
    /// The allocator state a context must keep: addresses and handles are
    /// never zero, and the memory-type table respects the API's cap of 32
    /// types.
    pub open spec fn wf(self) -> bool {
        &&& self.memory_types@.len() <= 32
        &&& 1 <= self.next_address
        &&& 1 <= self.next_handle
    }

    /// Some memory type both appears in the buffer requirements mask and
    /// carries every flag of `visibility`.
    pub open spec fn has_memory_type_for(self, visibility: u32) -> bool {
        exists|i: int|
            memory_type_matches(self.memory_types@, self.buffer_type_bits, visibility, i)
    }

    /// A fresh address range of `size` bytes still fits below the top of
    /// the 64-bit address space.
    pub open spec fn can_address(self, size: u64) -> bool {
        self.next_address + size <= u64::MAX
    }

    /// Starts a context with nothing allocated.
    pub fn new(memory_types: Vec<u32>, buffer_type_bits: u32) -> (r: DeviceContext)
        requires
            memory_types@.len() <= 32,
        ensures
            r.wf(),
            r.memory_types@ == memory_types@,
            r.buffer_type_bits == buffer_type_bits,
            r.next_address == 1,
            r.next_handle == 1,
    {
        DeviceContext { memory_types, buffer_type_bits, next_address: 1, next_handle: 1 }
    }

    /// Hands out the next object handle.  Handles are non-zero; once the
    /// counter is pinned at its maximum, further handles repeat it rather
    /// than wrap to zero.
    pub fn alloc_handle(&mut self) -> (h: u64)
        requires
            old(self).wf(),
        ensures
            final(self).wf(),
            h == old(self).next_handle,
            1 <= h,
            final(self).memory_types@ == old(self).memory_types@,
            final(self).buffer_type_bits == old(self).buffer_type_bits,
            final(self).next_address == old(self).next_address,
            final(self).next_handle == if old(self).next_handle < u64::MAX {
                old(self).next_handle + 1
            } else {
                old(self).next_handle as int
            },
    {
        let h = self.next_handle;
        if self.next_handle < u64::MAX {
            self.next_handle = self.next_handle + 1;
        }
        h
    }
}

} // verus!
