use vstd::prelude::*;
use crate::device::DeviceContext;
use crate::error::BuildError;
use crate::flags::flags_contain;
use crate::flags::contains_flags;
use crate::flags::USAGE_SHADER_DEVICE_ADDRESS;
use crate::flags::MEMORY_HOST_VISIBLE;
use crate::memory_type_matches;

verus! {

/// One GPU-visible memory range bound to a buffer handle: its allocation
/// parameters, the memory type chosen for it, its device address when it
/// was created address-capable, and the bytes last uploaded into it.
pub struct Buffers {
    /// Allocation size in bytes.
    pub size: u64,
    /// Buffer-usage flag word it was created with.
    pub usage: u32,
    /// Memory-property flag word it was created with.
    pub visibility: u32,
    /// Index of the memory type backing the allocation.
    pub memory_type_index: u32,
    /// The stable device address, non-zero exactly when the buffer was
    /// created with address-capable usage.
    pub device_address: u64,
    /// The bytes the host has uploaded so far; never longer than `size`.
    pub contents: Vec<u8>,
    /// Whether the backing memory is currently host-mapped.
    pub mapped: bool,
}

/// Every buffer created with address-capable usage carries a non-zero
/// device address, and the address is a field of the buffer value, so two
/// reads of it through `get_buffer_address` return the same value as long
/// as the buffer lives.
pub proof fn lemma_address_nonzero_and_stable(b: Buffers)
    requires
        b.wf(),
        b.is_address_capable(),
    ensures
        1 <= b.device_address,
{
}

/// Two buffers denote the same allocation: everything but the uploaded
/// bytes and the mapped state agrees.
pub open spec fn same_allocation(a: Buffers, b: Buffers) -> bool {
    &&& a.size == b.size
    &&& a.usage == b.usage
    &&& a.visibility == b.visibility
    &&& a.memory_type_index == b.memory_type_index
    &&& a.device_address == b.device_address
}

impl Buffers {
    /// What creation establishes and every operation preserves: the upload
    /// never exceeds the allocation, an address-capable buffer has a
    /// non-zero address whose range stays inside the address space, and a
    /// buffer without address-capable usage has no address.
    pub open spec fn wf(self) -> bool {
        &&& self.contents@.len() <= self.size
        &&& flags_contain(self.usage, USAGE_SHADER_DEVICE_ADDRESS) ==> {
            &&& 1 <= self.device_address
            &&& self.device_address + self.size <= u64::MAX
        }
        &&& !flags_contain(self.usage, USAGE_SHADER_DEVICE_ADDRESS) ==> self.device_address == 0
    }

    /// The buffer was created with address-capable usage.
    pub open spec fn is_address_capable(self) -> bool {
        flags_contain(self.usage, USAGE_SHADER_DEVICE_ADDRESS)
    }

    /// Allocates a buffer of `size` bytes.  The memory type is the first
    /// one that appears in the context's buffer requirements mask and
    /// carries every flag of `visibility`; with no such type the creation
    /// fails and the context is untouched.  Address-capable usage draws a
    /// fresh non-zero device address from the context.
    pub fn new(ctx: &mut DeviceContext, size: u64, usage: u32, visibility: u32) -> (r: Result<
        Buffers,
        BuildError,
    >)
        requires
            old(ctx).wf(),
            1 <= size,
        ensures
            final(ctx).wf(),
            final(ctx).memory_types@ == old(ctx).memory_types@,
            final(ctx).buffer_type_bits == old(ctx).buffer_type_bits,
            final(ctx).next_handle == old(ctx).next_handle,
            match r {
                Ok(b) => {
                    &&& old(ctx).has_memory_type_for(visibility)
                    &&& b.wf()
                    &&& !b.mapped
                    &&& b.size == size
                    &&& b.usage == usage
                    &&& b.visibility == visibility
                    &&& b.contents@ == Seq::<u8>::empty()
                    &&& memory_type_matches(
                        old(ctx).memory_types@,
                        old(ctx).buffer_type_bits,
                        visibility,
                        b.memory_type_index as int,
                    )
                    &&& forall|j: int|
                        0 <= j < b.memory_type_index ==> !memory_type_matches(
                            old(ctx).memory_types@,
                            old(ctx).buffer_type_bits,
                            visibility,
                            j,
                        )
                    &&& if flags_contain(usage, USAGE_SHADER_DEVICE_ADDRESS) {
                        &&& old(ctx).can_address(size)
                        &&& b.device_address == old(ctx).next_address
                        &&& final(ctx).next_address == old(ctx).next_address + size
                    } else {
                        &&& b.device_address == 0
                        &&& final(ctx).next_address == old(ctx).next_address
                    }
                },
                Err(e) => {
                    &&& *final(ctx) == *old(ctx)
                    &&& match e {
                        BuildError::NoSuitableMemoryType => !old(ctx).has_memory_type_for(
                            visibility,
                        ),
                        BuildError::DeviceAddressSpaceExhausted => {
                            &&& old(ctx).has_memory_type_for(visibility)
                            &&& flags_contain(usage, USAGE_SHADER_DEVICE_ADDRESS)
                            &&& !old(ctx).can_address(size)
                        },
                        _ => false,
                    }
                },
            },
    {
        let idx = crate::get_memory_type_index(&ctx.memory_types, ctx.buffer_type_bits, visibility);
        let memory_type_index: u32 = match idx {
            Some(i) => i,
            None => {
                return Err(BuildError::NoSuitableMemoryType);
            },
        };
        let device_address: u64;
        if contains_flags(usage, USAGE_SHADER_DEVICE_ADDRESS) {
            if ctx.next_address > u64::MAX - size {
                return Err(BuildError::DeviceAddressSpaceExhausted);
            }
            device_address = ctx.next_address;
            ctx.next_address = ctx.next_address + size;
        } else {
            device_address = 0;
        }
        Ok(
            Buffers {
                size,
                usage,
                visibility,
                memory_type_index,
                device_address,
                contents: Vec::new(),
                mapped: false,
            },
        )
    }

    /// Returns the buffer's stable 64-bit device address; only a buffer
    /// created with address-capable usage has one.  The result is fixed by
    /// the buffer value alone, so repeated calls return the same non-zero
    /// address.
    pub fn get_buffer_address(&self) -> (r: u64)
        requires
            self.wf(),
            self.is_address_capable(),
        ensures
            r == self.device_address,
            1 <= r,
            r + self.size <= u64::MAX,
    {
        self.device_address
    }

    /// Host read-back of the uploaded bytes through a debug mapping: what
    /// comes back is exactly what `store` last wrote.
    pub fn mapped_bytes(&self) -> (r: &Vec<u8>)
        ensures
            r@ == self.contents@,
    {
        &self.contents
    }

    /// Maps `size` bytes of the backing memory for host access.  Only
    /// host-visible memory can be mapped, and only once at a time.
    pub fn map(&mut self, size: u64)
        requires
            old(self).wf(),
            !old(self).mapped,
            flags_contain(old(self).visibility, MEMORY_HOST_VISIBLE),
            size <= old(self).size,
        ensures
            final(self).wf(),
            final(self).mapped,
            same_allocation(*final(self), *old(self)),
            final(self).contents@ == old(self).contents@,
    {
        self.mapped = true;
    }

    /// Releases the host mapping.
    pub fn unmap(&mut self)
        requires
            old(self).wf(),
            old(self).mapped,
        ensures
            final(self).wf(),
            !final(self).mapped,
            same_allocation(*final(self), *old(self)),
            final(self).contents@ == old(self).contents@,
    {
        self.mapped = false;
    }

    /// Uploads `data` into the buffer: maps the memory, copies the bytes,
    /// and unmaps.  A payload larger than the allocation is rejected
    /// before anything is touched, and the buffer is left exactly as it
    /// was.
    pub fn store(&mut self, data: &Vec<u8>) -> (r: Result<(), BuildError>)
        requires
            old(self).wf(),
            !old(self).mapped,
            flags_contain(old(self).visibility, MEMORY_HOST_VISIBLE),
        ensures
            final(self).wf(),
            !final(self).mapped,
            same_allocation(*final(self), *old(self)),
            match r {
                Ok(()) => {
                    &&& data@.len() <= old(self).size
                    &&& final(self).contents@ == data@
                },
                Err(e) => {
                    &&& e == BuildError::PayloadTooLarge
                    &&& data@.len() > old(self).size
                    &&& final(self).contents@ == old(self).contents@
                },
            },
    {
        let len = data.len();
        if len as u64 > self.size {
            return Err(BuildError::PayloadTooLarge);
        }
        self.map(len as u64);
        self.contents.clear();
        let mut i: usize = 0;
        while i < len
            invariant
                len == data@.len(),
                0 <= i <= len,
                self.contents@ == data@.take(i as int),
                self.mapped,
                self.size == old(self).size,
                len <= self.size,
                same_allocation(*self, *old(self)),
                self.wf(),
            decreases len - i,
        {
            self.contents.push(data[i]);
            i = i + 1;
        }
        assert(self.contents@ =~= data@);
        self.unmap();
        Ok(())
    }
}

} // verus!
