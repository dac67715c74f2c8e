use vstd::prelude::*;
use crate::buffer::Buffers;
use crate::bytes::u32_le_bytes;
use crate::bytes::u64_le_bytes;
use crate::bytes::u32s_le_bytes;
use crate::bytes::lemma_u32s_le_bytes_len;
use crate::bytes::push_u32_le;
use crate::bytes::push_u64_le;
use crate::device::DeviceContext;
use crate::error::BuildError;
use crate::flags::flags_contain;
use crate::flags::INSTANCE_FORCE_OPAQUE;
use crate::flags::MEMORY_DEVICE_LOCAL;
use crate::flags::MEMORY_HOST_COHERENT;
use crate::flags::MEMORY_HOST_VISIBLE;
use crate::flags::USAGE_ACCELERATION_STRUCTURE_BUILD_INPUT_READ_ONLY;
use crate::flags::USAGE_SHADER_DEVICE_ADDRESS;

verus! {

/// Size in bytes of one packed instance record: a 3x4 transform of twelve
/// 32-bit words, two packed 24/8-bit words, and a 64-bit structure
/// reference.
pub const INSTANCE_RECORD_SIZE: u64 = 64;

/// A 24-bit value packed below an 8-bit value in one 32-bit word, the
/// fixed layout both packed fields of an instance record use.
pub open spec fn spec_pack_24_8(low_24: u32, high_8: u8) -> u32 {
    (low_24 & 0x00ff_ffff) | ((high_8 as u32) << 24)
}

/// The low 24 bits of a packed word.
pub open spec fn spec_unpack_low_24(packed: u32) -> u32 {
    packed & 0x00ff_ffff
}

/// The high 8 bits of a packed word.
pub open spec fn spec_unpack_high_8(packed: u32) -> u8 {
    (packed >> 24) as u8
}

/// Packs a 24-bit value and an 8-bit value into one word.
pub fn pack_24_8(low_24: u32, high_8: u8) -> (r: u32)
    ensures
        r == spec_pack_24_8(low_24, high_8),
{
    (low_24 & 0x00ff_ffff) | ((high_8 as u32) << 24)
}

/// Recovers the low 24 bits of a packed word.
pub fn unpack_low_24(packed: u32) -> (r: u32)
    ensures
        r == spec_unpack_low_24(packed),
{
    packed & 0x00ff_ffff
}

/// Recovers the high 8 bits of a packed word.
pub fn unpack_high_8(packed: u32) -> (r: u8)
    ensures
        r == spec_unpack_high_8(packed),
{
    (packed >> 24) as u8
}

/// Packing a 24-bit value with an 8-bit value and unpacking the word
/// recovers exactly the split that was supplied.
pub proof fn lemma_pack_24_8_round_trip(low_24: u32, high_8: u8)
    requires
        low_24 < 0x0100_0000,
    ensures
        spec_unpack_low_24(spec_pack_24_8(low_24, high_8)) == low_24,
        spec_unpack_high_8(spec_pack_24_8(low_24, high_8)) == high_8,
{
    assert((((low_24 & 0x00ff_ffff) | ((high_8 as u32) << 24)) & 0x00ff_ffff) == low_24
        && ((((low_24 & 0x00ff_ffff) | ((high_8 as u32) << 24)) >> 24) as u8) == high_8)
        by (bit_vector)
        requires
            low_24 < 0x0100_0000,
    ;
}

/// One placement of a bottom-level structure in the scene: a row-major 3x4
/// transform (each element the bit pattern of one 32-bit float) and the
/// device address of the built structure it references.
pub struct InstancePlacement {
    pub transform: [u32; 12],
    pub blas_address: u64,
}

/// The fixed-layout instance record the device consumes, with the field
/// layout of the acceleration-structure instance: transform, then custom
/// index (24 bits) with visibility mask (8 bits), then record offset (24
/// bits) with flags (8 bits), then the referenced structure's address.
pub struct InstanceRecord {
    pub transform: [u32; 12],
    pub instance_custom_index_and_mask: u32,
    pub instance_shader_binding_table_record_offset_and_flags: u32,
    pub acceleration_structure_reference: u64,
}

/// The packed bytes of one instance record: 48 bytes of transform, the two
/// packed words, and the 64-bit reference, all little-endian.
pub open spec fn instance_record_bytes(r: InstanceRecord) -> Seq<u8> {
    u32s_le_bytes(r.transform@) + u32_le_bytes(r.instance_custom_index_and_mask) + u32_le_bytes(
        r.instance_shader_binding_table_record_offset_and_flags,
    ) + u64_le_bytes(r.acceleration_structure_reference)
}

/// The packed bytes of a whole instance list, record after record.
pub open spec fn instances_bytes(s: Seq<InstanceRecord>) -> Seq<u8>
    decreases s.len(),
{
    if s.len() == 0 {
        Seq::empty()
    } else {
        instances_bytes(s.drop_last()) + instance_record_bytes(s.last())
    }
}

pub proof fn lemma_instances_bytes_len(s: Seq<InstanceRecord>)
    ensures
        instances_bytes(s).len() == INSTANCE_RECORD_SIZE * s.len(),
    decreases s.len(),
{
    if s.len() > 0 {
        lemma_instances_bytes_len(s.drop_last());
        lemma_u32s_le_bytes_len(s.last().transform@);
    }
}

/// The record a placement becomes: custom index 0, mask all bits set (the
/// instance takes part in every ray query), record offset 0 (the single
/// hit-group scheme), and the force-opaque flag.
pub open spec fn record_for(p: InstancePlacement) -> InstanceRecord {
    InstanceRecord {
        transform: p.transform,
        instance_custom_index_and_mask: spec_pack_24_8(0, 0xff),
        instance_shader_binding_table_record_offset_and_flags: spec_pack_24_8(
            0,
            INSTANCE_FORCE_OPAQUE as u8,
        ),
        acceleration_structure_reference: p.blas_address,
    }
}

/// Every record a placement becomes carries its split losslessly:
/// unpacking the two packed words recovers custom index 0 with mask
/// `0xff`, and record offset 0 with the force-opaque flag.
pub proof fn lemma_record_fields_recoverable(p: InstancePlacement)
    ensures
        spec_unpack_low_24(record_for(p).instance_custom_index_and_mask) == 0,
        spec_unpack_high_8(record_for(p).instance_custom_index_and_mask) == 0xff,
        spec_unpack_low_24(record_for(p).instance_shader_binding_table_record_offset_and_flags)
            == 0,
        spec_unpack_high_8(record_for(p).instance_shader_binding_table_record_offset_and_flags)
            == INSTANCE_FORCE_OPAQUE as u8,
{
    lemma_pack_24_8_round_trip(0, 0xff);
    lemma_pack_24_8_round_trip(0, INSTANCE_FORCE_OPAQUE as u8);
}

/// Appends the packed encoding of one record to `out`.
fn encode_instance(out: &mut Vec<u8>, r: &InstanceRecord)
    ensures
        final(out)@ == old(out)@ + instance_record_bytes(*r),
{
    let mut k: usize = 0;
    while k < 12
        invariant
            0 <= k <= 12,
            out@ == old(out)@ + u32s_le_bytes(r.transform@.take(k as int)),
        decreases 12 - k,
    {
        push_u32_le(out, r.transform[k]);
        assert(r.transform@.take(k + 1).drop_last() =~= r.transform@.take(k as int));
        assert(r.transform@.take(k + 1).last() == r.transform@[k as int]);
        assert(out@ =~= old(out)@ + u32s_le_bytes(r.transform@.take(k + 1)));
        k = k + 1;
    }
    assert(r.transform@.take(12) =~= r.transform@);
    push_u32_le(out, r.instance_custom_index_and_mask);
    push_u32_le(out, r.instance_shader_binding_table_record_offset_and_flags);
    push_u64_le(out, r.acceleration_structure_reference);
    assert(final(out)@ =~= old(out)@ + instance_record_bytes(*r));
}

/// The scene's instance table: the records in declaration order and the
/// buffer holding their packed encoding, ready to feed a top-level build.
pub struct Scene {
    pub instances: Vec<InstanceRecord>,
    pub instance_buffer: Buffers,
}

impl Scene {
    /// What a built scene guarantees: a non-empty instance list whose
    /// count fits the build interface, and an address-capable,
    /// build-input-capable buffer holding exactly the packed records.
    pub open spec fn wf(self) -> bool {
        &&& 1 <= self.instances@.len() <= u32::MAX
        &&& self.instance_buffer.wf()
        &&& !self.instance_buffer.mapped
        &&& flags_contain(self.instance_buffer.usage, USAGE_SHADER_DEVICE_ADDRESS)
        &&& flags_contain(
            self.instance_buffer.usage,
            USAGE_ACCELERATION_STRUCTURE_BUILD_INPUT_READ_ONLY,
        )
        &&& self.instance_buffer.contents@ == instances_bytes(self.instances@)
        &&& self.instance_buffer.size == INSTANCE_RECORD_SIZE * self.instances@.len()
    }

    /// Builds one instance record: the referenced structure's address and
    /// the placement's transform, with custom index 0, mask `0xff`, record
    /// offset 0 and the force-opaque flag.
    pub fn create_triangle_instance(handle: u64, transform: [u32; 12]) -> (r: InstanceRecord)
        ensures
            r == (InstanceRecord {
                transform,
                instance_custom_index_and_mask: spec_pack_24_8(0, 0xff),
                instance_shader_binding_table_record_offset_and_flags: spec_pack_24_8(
                    0,
                    INSTANCE_FORCE_OPAQUE as u8,
                ),
                acceleration_structure_reference: handle,
            }),
    {
        InstanceRecord {
            transform,
            instance_custom_index_and_mask: pack_24_8(0, 0xff),
            instance_shader_binding_table_record_offset_and_flags: pack_24_8(
                0,
                INSTANCE_FORCE_OPAQUE as u8,
            ),
            acceleration_structure_reference: handle,
        }
    }

    /// Builds the scene's instance table from the given placements: packs
    /// one record per placement and uploads the packed array into a fresh
    /// address-capable, build-input-capable, host-visible buffer.  The
    /// buffer must stay alive and unmodified for the following top-level
    /// build.
    pub fn build_scene(ctx: &mut DeviceContext, placements: &Vec<InstancePlacement>) -> (r: Result<
        Scene,
        BuildError,
    >)
        requires
            old(ctx).wf(),
            1 <= placements@.len() <= u32::MAX,
        ensures
            final(ctx).wf(),
            final(ctx).memory_types@ == old(ctx).memory_types@,
            final(ctx).buffer_type_bits == old(ctx).buffer_type_bits,
            final(ctx).next_handle == old(ctx).next_handle,
            match r {
                Ok(s) => {
                    &&& s.wf()
                    &&& s.instances@.len() == placements@.len()
                    &&& forall|k: int|
                        0 <= k < placements@.len() ==> s.instances@[k] == record_for(
                            placements@[k],
                        )
                    &&& s.instance_buffer.visibility == (MEMORY_HOST_VISIBLE
                        | MEMORY_HOST_COHERENT | MEMORY_DEVICE_LOCAL)
                    &&& s.instance_buffer.device_address == old(ctx).next_address
                },
                Err(e) => {
                    &&& *final(ctx) == *old(ctx)
                    &&& match e {
                        BuildError::NoSuitableMemoryType => !old(ctx).has_memory_type_for(
                            MEMORY_HOST_VISIBLE | MEMORY_HOST_COHERENT | MEMORY_DEVICE_LOCAL,
                        ),
                        BuildError::DeviceAddressSpaceExhausted => !old(ctx).can_address(
                            (INSTANCE_RECORD_SIZE * placements@.len()) as u64,
                        ),
                        _ => false,
                    }
                },
            },
    {
        let n = placements.len();
        let mut instances: Vec<InstanceRecord> = Vec::new();
        let mut i: usize = 0;
        while i < n
            invariant
                n == placements@.len(),
                0 <= i <= n,
                instances@.len() == i,
                forall|k: int| 0 <= k < i ==> instances@[k] == record_for(placements@[k]),
            decreases n - i,
        {
            let rec = Self::create_triangle_instance(
                placements[i].blas_address,
                placements[i].transform,
            );
            instances.push(rec);
            i = i + 1;
        }

        let mut data: Vec<u8> = Vec::new();
        let mut i: usize = 0;
        while i < n
            invariant
                n == instances@.len(),
                0 <= i <= n,
                data@ == instances_bytes(instances@.take(i as int)),
            decreases n - i,
        {
            encode_instance(&mut data, &instances[i]);
            assert(instances@.take(i + 1).drop_last() =~= instances@.take(i as int));
            assert(instances@.take(i + 1).last() == instances@[i as int]);
            assert(data@ =~= instances_bytes(instances@.take(i + 1)));
            i = i + 1;
        }
        assert(instances@.take(n as int) =~= instances@);
        proof {
            lemma_instances_bytes_len(instances@);
        }

        proof {
            crate::flags::lemma_or_contains(
                USAGE_SHADER_DEVICE_ADDRESS,
                USAGE_ACCELERATION_STRUCTURE_BUILD_INPUT_READ_ONLY,
            );
            crate::flags::lemma_or_contains(MEMORY_HOST_VISIBLE, MEMORY_HOST_COHERENT);
            crate::flags::lemma_or_contains(
                MEMORY_HOST_VISIBLE | MEMORY_HOST_COHERENT,
                MEMORY_DEVICE_LOCAL,
            );
            crate::flags::lemma_contains_trans(
                MEMORY_HOST_VISIBLE | MEMORY_HOST_COHERENT | MEMORY_DEVICE_LOCAL,
                MEMORY_HOST_VISIBLE | MEMORY_HOST_COHERENT,
                MEMORY_HOST_VISIBLE,
            );
        }
        let size: u64 = (n as u64) * INSTANCE_RECORD_SIZE;
        let created = Buffers::new(
            ctx,
            size,
            USAGE_SHADER_DEVICE_ADDRESS | USAGE_ACCELERATION_STRUCTURE_BUILD_INPUT_READ_ONLY,
            MEMORY_HOST_VISIBLE | MEMORY_HOST_COHERENT | MEMORY_DEVICE_LOCAL,
        );
        let mut instance_buffer = match created {
            Ok(b) => b,
            Err(e) => {
                return Err(e);
            },
        };
        let stored = instance_buffer.store(&data);
        proof {
            assert(stored is Ok);
        }
        Ok(Scene { instances, instance_buffer })
    }
}

} // verus!
