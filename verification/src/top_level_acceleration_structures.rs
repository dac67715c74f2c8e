use vstd::prelude::*;
use crate::buffer::Buffers;
use crate::commands::record_tlas_build;
use crate::commands::tlas_build_steps;
use crate::commands::BuildSizes;
use crate::commands::BuildStep;
use crate::commands::GeometryDescription;
use crate::device::DeviceContext;
use crate::error::BuildError;
use crate::flags::flags_contain;
use crate::flags::lemma_contains_trans;
use crate::flags::lemma_or_contains;
use crate::flags::MEMORY_DEVICE_LOCAL;
use crate::flags::USAGE_ACCELERATION_STRUCTURE_STORAGE;
use crate::flags::USAGE_SHADER_DEVICE_ADDRESS;
use crate::flags::USAGE_STORAGE_BUFFER;
use crate::scene::Scene;

verus! {

/// The built top-level structure over the scene's instances: the single
/// GPU-traceable root.  It holds its handle, its backing buffer, the
/// instance geometry it was built from, and the one-shot command sequence
/// that built it.
pub struct TopLevelAccelerationStructures {
    pub top_level_acceleration_structure_khr: u64,
    pub top_level_acceleration_structure_buffer: Buffers,
    pub geometry: GeometryDescription,
    pub build_steps: Vec<BuildStep>,
}

impl TopLevelAccelerationStructures {
    /// What a built structure guarantees: a non-zero handle, instance
    /// geometry, and a non-empty backing buffer with structure-storage,
    /// storage and address-capable usage in device-local memory.
    pub open spec fn wf(self) -> bool {
        &&& 1 <= self.top_level_acceleration_structure_khr
        &&& self.geometry is Instances
        &&& self.top_level_acceleration_structure_buffer.wf()
        &&& !self.top_level_acceleration_structure_buffer.mapped
        &&& 1 <= self.top_level_acceleration_structure_buffer.size
        &&& flags_contain(
            self.top_level_acceleration_structure_buffer.usage,
            USAGE_ACCELERATION_STRUCTURE_STORAGE,
        )
        &&& flags_contain(
            self.top_level_acceleration_structure_buffer.usage,
            USAGE_SHADER_DEVICE_ADDRESS,
        )
        &&& flags_contain(
            self.top_level_acceleration_structure_buffer.usage,
            USAGE_STORAGE_BUFFER,
        )
    }

    /// Builds the top-level structure over the scene's instance buffer,
    /// with the sizes the device's size query reported: allocates the
    /// backing buffer, creates the structure object, allocates the
    /// transient scratch, and records the one-shot build sequence.  The
    /// recorded sequence carries the barrier that orders the host's
    /// instance upload before the build's reads.
    pub fn new(ctx: &mut DeviceContext, scene: &Scene, sizes: BuildSizes) -> (r: Result<
        TopLevelAccelerationStructures,
        BuildError,
    >)
        requires
            old(ctx).wf(),
            scene.wf(),
        ensures
            final(ctx).wf(),
            final(ctx).memory_types@ == old(ctx).memory_types@,
            final(ctx).buffer_type_bits == old(ctx).buffer_type_bits,
            match r {
                Ok(t) => {
                    &&& t.wf()
                    &&& t.top_level_acceleration_structure_khr == old(ctx).next_handle
                    &&& t.top_level_acceleration_structure_buffer.size
                        == sizes.acceleration_structure_size
                    &&& t.top_level_acceleration_structure_buffer.visibility == MEMORY_DEVICE_LOCAL
                    &&& t.top_level_acceleration_structure_buffer.device_address == old(
                        ctx,
                    ).next_address
                    &&& t.geometry == (GeometryDescription::Instances {
                        instance_buffer_address: scene.instance_buffer.device_address,
                        instance_count: scene.instances@.len() as u32,
                    })
                    &&& t.build_steps@ == tlas_build_steps(
                        t.top_level_acceleration_structure_khr,
                        (old(ctx).next_address + sizes.acceleration_structure_size) as u64,
                        t.geometry,
                    )
                },
                Err(e) => {
                    &&& final(ctx).next_handle == old(ctx).next_handle
                    &&& match e {
                        BuildError::InvalidBuildSize => sizes.acceleration_structure_size == 0
                            || sizes.build_scratch_size == 0,
                        BuildError::NoSuitableMemoryType => {
                            &&& sizes.acceleration_structure_size >= 1
                            &&& sizes.build_scratch_size >= 1
                            &&& !old(ctx).has_memory_type_for(MEMORY_DEVICE_LOCAL)
                        },
                        BuildError::DeviceAddressSpaceExhausted => {
                            &&& sizes.acceleration_structure_size >= 1
                            &&& sizes.build_scratch_size >= 1
                            &&& old(ctx).has_memory_type_for(MEMORY_DEVICE_LOCAL)
                            &&& old(ctx).next_address + sizes.acceleration_structure_size
                                + sizes.build_scratch_size > u64::MAX
                        },
                        _ => false,
                    }
                },
            },
    {
        if sizes.acceleration_structure_size == 0 || sizes.build_scratch_size == 0 {
            return Err(BuildError::InvalidBuildSize);
        }

        let instance_count = scene.instances.len();
        let geometry = GeometryDescription::Instances {
            instance_buffer_address: scene.instance_buffer.get_buffer_address(),
            instance_count: instance_count as u32,
        };

        proof {
            lemma_or_contains(USAGE_SHADER_DEVICE_ADDRESS, USAGE_STORAGE_BUFFER);
            lemma_or_contains(
                USAGE_ACCELERATION_STRUCTURE_STORAGE,
                USAGE_SHADER_DEVICE_ADDRESS | USAGE_STORAGE_BUFFER,
            );
            lemma_contains_trans(
                USAGE_ACCELERATION_STRUCTURE_STORAGE | (USAGE_SHADER_DEVICE_ADDRESS
                    | USAGE_STORAGE_BUFFER),
                USAGE_SHADER_DEVICE_ADDRESS | USAGE_STORAGE_BUFFER,
                USAGE_SHADER_DEVICE_ADDRESS,
            );
            lemma_contains_trans(
                USAGE_ACCELERATION_STRUCTURE_STORAGE | (USAGE_SHADER_DEVICE_ADDRESS
                    | USAGE_STORAGE_BUFFER),
                USAGE_SHADER_DEVICE_ADDRESS | USAGE_STORAGE_BUFFER,
                USAGE_STORAGE_BUFFER,
            );
        }

        let top_level_acceleration_structure_buffer = match Buffers::new(
            ctx,
            sizes.acceleration_structure_size,
            USAGE_ACCELERATION_STRUCTURE_STORAGE | (USAGE_SHADER_DEVICE_ADDRESS
                | USAGE_STORAGE_BUFFER),
            MEMORY_DEVICE_LOCAL,
        ) {
            Ok(b) => b,
            Err(e) => {
                return Err(e);
            },
        };

        let scratch_buffer = match Buffers::new(
            ctx,
            sizes.build_scratch_size,
            USAGE_SHADER_DEVICE_ADDRESS | USAGE_STORAGE_BUFFER,
            MEMORY_DEVICE_LOCAL,
        ) {
            Ok(b) => b,
            Err(e) => {
                return Err(e);
            },
        };
        let scratch_address = scratch_buffer.get_buffer_address();

        let top_level_acceleration_structure_khr = ctx.alloc_handle();
        let build_steps = record_tlas_build(
            top_level_acceleration_structure_khr,
            scratch_address,
            geometry,
        );

        Ok(
            TopLevelAccelerationStructures {
                top_level_acceleration_structure_khr,
                top_level_acceleration_structure_buffer,
                geometry,
                build_steps,
            },
        )
    }
}

} // verus!
