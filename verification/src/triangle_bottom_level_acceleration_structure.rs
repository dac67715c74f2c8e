use vstd::prelude::*;
use crate::buffer::Buffers;
use crate::commands::blas_build_steps;
use crate::commands::record_blas_build;
use crate::commands::BuildSizes;
use crate::commands::BuildStep;
use crate::commands::GeometryDescription;
use crate::device::DeviceContext;
use crate::error::BuildError;
use crate::flags::flags_contain;
use crate::flags::lemma_contains_trans;
use crate::flags::lemma_or_contains;
use crate::flags::MEMORY_DEVICE_LOCAL;
use crate::flags::USAGE_ACCELERATION_STRUCTURE_STORAGE;
use crate::flags::USAGE_SHADER_DEVICE_ADDRESS;
use crate::flags::USAGE_STORAGE_BUFFER;
use crate::mesh_buffer::MeshBuffer;

verus! {

/// A built bottom-level structure over one mesh's triangles: its handle,
/// its backing buffer, the triangle geometry it was built from, and the
/// one-shot command sequence that built it.  The transient scratch buffer
/// is released by the build and does not outlive it.
pub struct TriangleBottomLevelAccelerationStructure {
    pub bottom_acceleration_structure: u64,
    pub bottom_acceleration_buffer: Buffers,
    pub geometry: GeometryDescription,
    pub build_steps: Vec<BuildStep>,
}

impl TriangleBottomLevelAccelerationStructure {
    /// What a built structure guarantees: a non-zero handle, triangle
    /// geometry, and a non-empty backing buffer with structure-storage,
    /// storage and address-capable usage in device-local memory.
    pub open spec fn wf(self) -> bool {
        &&& 1 <= self.bottom_acceleration_structure
        &&& self.geometry is Triangles
        &&& self.bottom_acceleration_buffer.wf()
        &&& !self.bottom_acceleration_buffer.mapped
        &&& 1 <= self.bottom_acceleration_buffer.size
        &&& flags_contain(
            self.bottom_acceleration_buffer.usage,
            USAGE_ACCELERATION_STRUCTURE_STORAGE,
        )
        &&& flags_contain(self.bottom_acceleration_buffer.usage, USAGE_SHADER_DEVICE_ADDRESS)
        &&& flags_contain(self.bottom_acceleration_buffer.usage, USAGE_STORAGE_BUFFER)
    }

    /// Builds a bottom-level structure over `mesh`, with the build and
    /// backing sizes the device's size query reported: allocates the
    /// transient scratch and the backing buffer, creates the structure
    /// object, and records the one-shot build sequence whose completion
    /// makes the structure's address valid.
    pub fn new(ctx: &mut DeviceContext, mesh: &MeshBuffer, sizes: BuildSizes) -> (r: Result<
        TriangleBottomLevelAccelerationStructure,
        BuildError,
    >)
        requires
            old(ctx).wf(),
            mesh.wf(),
        ensures
            final(ctx).wf(),
            final(ctx).memory_types@ == old(ctx).memory_types@,
            final(ctx).buffer_type_bits == old(ctx).buffer_type_bits,
            match r {
                Ok(b) => {
                    &&& b.wf()
                    &&& b.bottom_acceleration_structure == old(ctx).next_handle
                    &&& b.bottom_acceleration_buffer.size == sizes.acceleration_structure_size
                    &&& b.bottom_acceleration_buffer.visibility == MEMORY_DEVICE_LOCAL
                    &&& b.geometry == (GeometryDescription::Triangles {
                        vertex_address: mesh.vertex_buffer.device_address,
                        index_address: mesh.index_buffer.device_address,
                        vertex_stride: mesh.vertex_stride,
                        max_vertex: mesh.max_vertex,
                        primitive_count: mesh.indices_count / 3,
                    })
                    &&& b.build_steps@ == blas_build_steps(
                        b.bottom_acceleration_structure,
                        old(ctx).next_address,
                        b.geometry,
                    )
                    &&& b.bottom_acceleration_buffer.device_address == old(ctx).next_address
                        + sizes.build_scratch_size
                },
                Err(e) => {
                    &&& final(ctx).next_handle == old(ctx).next_handle
                    &&& match e {
                        BuildError::InvalidBuildSize => sizes.acceleration_structure_size == 0
                            || sizes.build_scratch_size == 0,
                        BuildError::NoSuitableMemoryType => {
                            &&& sizes.acceleration_structure_size >= 1
                            &&& sizes.build_scratch_size >= 1
                            &&& !old(ctx).has_memory_type_for(MEMORY_DEVICE_LOCAL)
                        },
                        BuildError::DeviceAddressSpaceExhausted => {
                            &&& sizes.acceleration_structure_size >= 1
                            &&& sizes.build_scratch_size >= 1
                            &&& old(ctx).has_memory_type_for(MEMORY_DEVICE_LOCAL)
                            &&& old(ctx).next_address + sizes.build_scratch_size
                                + sizes.acceleration_structure_size > u64::MAX
                        },
                        _ => false,
                    }
                },
            },
    {
        if sizes.acceleration_structure_size == 0 || sizes.build_scratch_size == 0 {
            return Err(BuildError::InvalidBuildSize);
        }

        let geometry = GeometryDescription::Triangles {
            vertex_address: mesh.vertex_buffer.get_buffer_address(),
            index_address: mesh.index_buffer.get_buffer_address(),
            vertex_stride: mesh.vertex_stride,
            max_vertex: mesh.max_vertex,
            primitive_count: mesh.primitive_count(),
        };

        proof {
            lemma_or_contains(USAGE_SHADER_DEVICE_ADDRESS, USAGE_STORAGE_BUFFER);
            lemma_or_contains(
                USAGE_ACCELERATION_STRUCTURE_STORAGE,
                USAGE_SHADER_DEVICE_ADDRESS | USAGE_STORAGE_BUFFER,
            );
            lemma_contains_trans(
                USAGE_ACCELERATION_STRUCTURE_STORAGE | (USAGE_SHADER_DEVICE_ADDRESS
                    | USAGE_STORAGE_BUFFER),
                USAGE_SHADER_DEVICE_ADDRESS | USAGE_STORAGE_BUFFER,
                USAGE_SHADER_DEVICE_ADDRESS,
            );
            lemma_contains_trans(
                USAGE_ACCELERATION_STRUCTURE_STORAGE | (USAGE_SHADER_DEVICE_ADDRESS
                    | USAGE_STORAGE_BUFFER),
                USAGE_SHADER_DEVICE_ADDRESS | USAGE_STORAGE_BUFFER,
                USAGE_STORAGE_BUFFER,
            );
        }

        let scratch_buffer = match Buffers::new(
            ctx,
            sizes.build_scratch_size,
            USAGE_SHADER_DEVICE_ADDRESS | USAGE_STORAGE_BUFFER,
            MEMORY_DEVICE_LOCAL,
        ) {
            Ok(b) => b,
            Err(e) => {
                return Err(e);
            },
        };
        let scratch_address = scratch_buffer.get_buffer_address();

        let bottom_acceleration_buffer = match Buffers::new(
            ctx,
            sizes.acceleration_structure_size,
            USAGE_ACCELERATION_STRUCTURE_STORAGE | (USAGE_SHADER_DEVICE_ADDRESS
                | USAGE_STORAGE_BUFFER),
            MEMORY_DEVICE_LOCAL,
        ) {
            Ok(b) => b,
            Err(e) => {
                return Err(e);
            },
        };

        let bottom_acceleration_structure = ctx.alloc_handle();
        let build_steps = record_blas_build(bottom_acceleration_structure, scratch_address, geometry);

        Ok(
            TriangleBottomLevelAccelerationStructure {
                bottom_acceleration_structure,
                bottom_acceleration_buffer,
                geometry,
                build_steps,
            },
        )
    }

    /// The device address of the built structure, the value an instance
    /// record references; it lives in the backing buffer, so it is the
    /// backing buffer's non-zero address.
    pub fn get_device_address_info(&self) -> (r: u64)
        requires
            self.wf(),
        ensures
            r == self.bottom_acceleration_buffer.device_address,
            1 <= r,
    {
        self.bottom_acceleration_buffer.get_buffer_address()
    }
}

} // verus!
