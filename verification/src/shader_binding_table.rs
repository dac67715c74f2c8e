use vstd::prelude::*;
use crate::buffer::Buffers;
use crate::device::DeviceContext;
use crate::error::BuildError;
use crate::flags::flags_contain;
use crate::flags::lemma_contains_trans;
use crate::flags::lemma_or_contains;
use crate::flags::MEMORY_DEVICE_LOCAL;
use crate::flags::MEMORY_HOST_COHERENT;
use crate::flags::MEMORY_HOST_VISIBLE;
use crate::flags::USAGE_SHADER_DEVICE_ADDRESS;
use crate::pipelines::hit_group_count;
use crate::pipelines::lemma_standard_hit_groups;
use crate::pipelines::standard_shader_groups;
use crate::pipelines::Pipelines;

verus! {

/// One region of the binding table: where it starts, how far apart its
/// records lie, and how many bytes it spans.
#[derive(Clone, Copy, PartialEq, Eq, Structural, Debug)]
pub struct StridedDeviceAddressRegion {
    pub device_address: u64,
    pub stride: u64,
    pub size: u64,
}

/// The ray-generation region: one record at the table's base.
pub open spec fn raygen_region_of(base: u64, handle_size: u64) -> StridedDeviceAddressRegion {
    StridedDeviceAddressRegion { device_address: base, stride: handle_size, size: handle_size }
}

/// The miss region: one record, right after the ray-generation record.
pub open spec fn miss_region_of(base: u64, handle_size: u64) -> StridedDeviceAddressRegion {
    StridedDeviceAddressRegion {
        device_address: (base + handle_size) as u64,
        stride: handle_size,
        size: handle_size,
    }
}

/// The hit region: two contiguous records, one per hit-capable group in
/// declaration order, so that an instance's record offset plus the
/// geometry's hit-group index resolves inside it.
pub open spec fn hit_region_of(base: u64, handle_size: u64) -> StridedDeviceAddressRegion {
    StridedDeviceAddressRegion {
        device_address: (base + 2 * handle_size) as u64,
        stride: handle_size,
        size: (2 * handle_size) as u64,
    }
}

/// The callable region: unused in this design, so zero-sized.
pub open spec fn callable_region_of() -> StridedDeviceAddressRegion {
    StridedDeviceAddressRegion { device_address: 0, stride: 0, size: 0 }
}

/// For the declaration order [ray-generation, miss, procedural-hit,
/// triangle-hit], the regions carved out of a table at `base` satisfy the
/// layout the dispatch contract needs: one handle-sized record each for
/// ray generation and miss, a hit region of exactly one record per
/// hit-capable group laid contiguously after them, a record stride that
/// covers a handle and is a multiple of the reported alignment, and an
/// empty callable region.
pub proof fn lemma_sbt_region_layout(base: u64, handle_size: u64, handle_alignment: u64)
    requires
        1 <= handle_size,
        1 <= handle_alignment,
        handle_size % handle_alignment == 0,
        base + 4 * handle_size <= u64::MAX,
    ensures
        raygen_region_of(base, handle_size).size == handle_size,
        miss_region_of(base, handle_size).size == handle_size,
        hit_region_of(base, handle_size).size == 2 * handle_size,
        hit_region_of(base, handle_size).stride >= handle_size,
        hit_region_of(base, handle_size).stride % handle_alignment == 0,
        raygen_region_of(base, handle_size).device_address == base,
        miss_region_of(base, handle_size).device_address == raygen_region_of(
            base,
            handle_size,
        ).device_address + raygen_region_of(base, handle_size).size,
        hit_region_of(base, handle_size).device_address == miss_region_of(
            base,
            handle_size,
        ).device_address + miss_region_of(base, handle_size).size,
        hit_region_of(base, handle_size).size == hit_group_count(standard_shader_groups())
            * hit_region_of(base, handle_size).stride,
        callable_region_of().size == 0,
{
    lemma_standard_hit_groups();
}

/// The dispatch-time lookup table: per-group opaque handles laid into a
/// buffer, carved into the four addressed and strided regions a
/// trace-rays command consumes.
pub struct ShaderBindingTable {
    pub buffer: Buffers,
    pub raygen_region: StridedDeviceAddressRegion,
    pub miss_region: StridedDeviceAddressRegion,
    pub hit_region: StridedDeviceAddressRegion,
    pub callable_region: StridedDeviceAddressRegion,
}

impl ShaderBindingTable {
    /// What a built table guarantees: an address-capable buffer holding
    /// the handles, and the four regions carved from its base address
    /// with the record stride they share.
    pub open spec fn wf(self) -> bool {
        &&& self.buffer.wf()
        &&& !self.buffer.mapped
        &&& flags_contain(self.buffer.usage, USAGE_SHADER_DEVICE_ADDRESS)
        &&& 1 <= self.raygen_region.stride
        &&& self.raygen_region == raygen_region_of(
            self.buffer.device_address,
            self.raygen_region.stride,
        )
        &&& self.miss_region == miss_region_of(
            self.buffer.device_address,
            self.raygen_region.stride,
        )
        &&& self.hit_region == hit_region_of(
            self.buffer.device_address,
            self.raygen_region.stride,
        )
        &&& self.callable_region == callable_region_of()
        &&& self.buffer.size == 4 * self.raygen_region.stride
    }

    /// Lays the retrieved group handles into a fresh table buffer and
    /// carves the four regions from its base address.  `handle_size` and
    /// `handle_alignment` are the device-reported values; the handle blob
    /// must hold exactly one handle per declared group, in declaration
    /// order.  The buffer's memory is host-visible, host-coherent and
    /// device-local at once.
    pub fn new(
        ctx: &mut DeviceContext,
        pipeline: &Pipelines,
        handle_size: u32,
        handle_alignment: u32,
        group_handles: &Vec<u8>,
    ) -> (r: Result<ShaderBindingTable, BuildError>)
        requires
            old(ctx).wf(),
            pipeline.wf(),
        ensures
            final(ctx).wf(),
            final(ctx).memory_types@ == old(ctx).memory_types@,
            final(ctx).buffer_type_bits == old(ctx).buffer_type_bits,
            final(ctx).next_handle == old(ctx).next_handle,
            match r {
                Ok(sbt) => {
                    &&& 1 <= handle_size
                    &&& 1 <= handle_alignment
                    &&& handle_size % handle_alignment == 0
                    &&& group_handles@.len() == pipeline.shader_groups@.len() * handle_size
                    &&& sbt.wf()
                    &&& sbt.buffer.size == 4 * handle_size
                    &&& sbt.buffer.contents@ == group_handles@
                    &&& sbt.buffer.usage == USAGE_SHADER_DEVICE_ADDRESS
                    &&& sbt.buffer.visibility == (MEMORY_HOST_VISIBLE | MEMORY_HOST_COHERENT
                        | MEMORY_DEVICE_LOCAL)
                    &&& sbt.buffer.device_address == old(ctx).next_address
                    &&& sbt.raygen_region == raygen_region_of(
                        sbt.buffer.device_address,
                        handle_size as u64,
                    )
                    &&& sbt.miss_region == miss_region_of(
                        sbt.buffer.device_address,
                        handle_size as u64,
                    )
                    &&& sbt.hit_region == hit_region_of(
                        sbt.buffer.device_address,
                        handle_size as u64,
                    )
                    &&& sbt.callable_region == callable_region_of()
                },
                Err(e) => {
                    &&& *final(ctx) == *old(ctx)
                    &&& match e {
                        BuildError::MisalignedHandleSize => handle_size == 0 || handle_alignment
                            == 0 || handle_size % handle_alignment != 0,
                        BuildError::InvalidHandleData => {
                            &&& 1 <= handle_size
                            &&& 1 <= handle_alignment
                            &&& handle_size % handle_alignment == 0
                            &&& group_handles@.len() != pipeline.shader_groups@.len() * handle_size
                        },
                        BuildError::NoSuitableMemoryType => !old(ctx).has_memory_type_for(
                            MEMORY_HOST_VISIBLE | MEMORY_HOST_COHERENT | MEMORY_DEVICE_LOCAL,
                        ),
                        BuildError::DeviceAddressSpaceExhausted => !old(ctx).can_address(
                            (4 * handle_size) as u64,
                        ),
                        _ => false,
                    }
                },
            },
    {
        if handle_size == 0 || handle_alignment == 0 || handle_size % handle_alignment != 0 {
            return Err(BuildError::MisalignedHandleSize);
        }
        let group_count = pipeline.group_count();
        let expected_len: u64 = (group_count as u64) * (handle_size as u64);
        if group_handles.len() as u64 != expected_len {
            return Err(BuildError::InvalidHandleData);
        }

        proof {
            crate::flags::lemma_self_contains(USAGE_SHADER_DEVICE_ADDRESS);
            lemma_or_contains(MEMORY_HOST_VISIBLE, MEMORY_HOST_COHERENT);
            lemma_or_contains(MEMORY_HOST_VISIBLE | MEMORY_HOST_COHERENT, MEMORY_DEVICE_LOCAL);
            lemma_contains_trans(
                MEMORY_HOST_VISIBLE | MEMORY_HOST_COHERENT | MEMORY_DEVICE_LOCAL,
                MEMORY_HOST_VISIBLE | MEMORY_HOST_COHERENT,
                MEMORY_HOST_VISIBLE,
            );
        }

        let table_size: u64 = 4 * (handle_size as u64);
        let mut buffer = match Buffers::new(
            ctx,
            table_size,
            USAGE_SHADER_DEVICE_ADDRESS,
            MEMORY_HOST_VISIBLE | MEMORY_HOST_COHERENT | MEMORY_DEVICE_LOCAL,
        ) {
            Ok(b) => b,
            Err(e) => {
                return Err(e);
            },
        };
        let stored = buffer.store(group_handles);
        proof {
            assert(stored is Ok);
        }

        let base = buffer.get_buffer_address();
        let record_stride = handle_size as u64;
        let raygen_region = StridedDeviceAddressRegion {
            device_address: base,
            stride: record_stride,
            size: record_stride,
        };
        let miss_region = StridedDeviceAddressRegion {
            device_address: base + record_stride,
            stride: record_stride,
            size: record_stride,
        };
        let hit_region = StridedDeviceAddressRegion {
            device_address: base + 2 * record_stride,
            stride: record_stride,
            size: 2 * record_stride,
        };
        let callable_region = StridedDeviceAddressRegion { device_address: 0, stride: 0, size: 0 };

        Ok(ShaderBindingTable { buffer, raygen_region, miss_region, hit_region, callable_region })
    }
}

/// Everything a trace-rays command needs: the pipeline, the four regions,
/// and the dispatch extent.
#[derive(Clone, Copy, PartialEq, Eq, Structural, Debug)]
pub struct TraceRaysCommand {
    pub pipeline: u64,
    pub raygen_region: StridedDeviceAddressRegion,
    pub miss_region: StridedDeviceAddressRegion,
    pub hit_region: StridedDeviceAddressRegion,
    pub callable_region: StridedDeviceAddressRegion,
    pub width: u32,
    pub height: u32,
    pub depth: u32,
}

/// Assembles the dispatch inputs for one trace over a `width` by `height`
/// target: the built pipeline's handle and the table's four regions,
/// which together are sufficient for a trace-rays command.
pub fn trace_rays_command(
    pipeline: &Pipelines,
    sbt: &ShaderBindingTable,
    width: u32,
    height: u32,
) -> (r: TraceRaysCommand)
    requires
        pipeline.wf(),
        sbt.wf(),
        1 <= width,
        1 <= height,
    ensures
        r.pipeline == pipeline.pipeline,
        r.raygen_region == sbt.raygen_region,
        r.miss_region == sbt.miss_region,
        r.hit_region == sbt.hit_region,
        r.callable_region == sbt.callable_region,
        r.width == width,
        r.height == height,
        r.depth == 1,
{
    TraceRaysCommand {
        pipeline: pipeline.pipeline,
        raygen_region: sbt.raygen_region,
        miss_region: sbt.miss_region,
        hit_region: sbt.hit_region,
        callable_region: sbt.callable_region,
        width,
        height,
        depth: 1,
    }
}

} // verus!
