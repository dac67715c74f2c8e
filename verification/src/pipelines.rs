use vstd::prelude::*;
use crate::device::DeviceContext;
use crate::flags::STAGE_CLOSEST_HIT;
use crate::flags::STAGE_RAYGEN;
use crate::mesh_buffer::MeshBuffer;
use crate::top_level_acceleration_structures::TopLevelAccelerationStructures;

verus! {

/// The descriptor types the pipeline's single set uses.
#[derive(Clone, Copy, PartialEq, Eq, Structural, Debug)]
pub enum DescriptorType {
    AccelerationStructure,
    StorageImage,
    StorageBuffer,
}

/// One binding of the descriptor set layout.
#[derive(Clone, Copy, PartialEq, Eq, Structural, Debug)]
pub struct DescriptorBinding {
    pub binding: u32,
    pub descriptor_type: DescriptorType,
    pub descriptor_count: u32,
    pub stage_flags: u32,
}

/// One write into the allocated descriptor set.  An
/// acceleration-structure write carries its descriptor count explicitly:
/// the API does not count such descriptors automatically, so the count
/// must be set to one by hand.
#[derive(Clone, Copy, PartialEq, Eq, Structural, Debug)]
pub enum DescriptorWrite {
    AccelerationStructure { binding: u32, structure_handle: u64, descriptor_count: u32 },
    StorageImage { binding: u32, image_view: u64 },
    StorageBuffer { binding: u32, buffer_address: u64 },
}

/// The kind of one shader stage.
#[derive(Clone, Copy, PartialEq, Eq, Structural, Debug)]
pub enum ShaderStageKind {
    RayGeneration,
    Miss,
    Intersection,
    ClosestHit,
    AnyHit,
}

/// The six well-known entry points the shader binary must expose.
#[derive(Clone, Copy, PartialEq, Eq, Structural, Debug)]
pub enum EntryPoint {
    RayGeneration,
    Miss,
    SphereIntersection,
    SphereClosestHit,
    TriangleClosestHit,
    TriangleAnyHit,
}

/// One declared stage: its kind and the entry point it runs.
#[derive(Clone, Copy, PartialEq, Eq, Structural, Debug)]
pub struct ShaderStage {
    pub stage: ShaderStageKind,
    pub entry: EntryPoint,
}

/// One dispatchable shader group.  The indices refer to positions in the
/// declared stage list; a field that the group kind does not use is simply
/// absent rather than set to a sentinel.
#[derive(Clone, Copy, PartialEq, Eq, Structural, Debug)]
pub enum ShaderGroup {
    General { general: u32 },
    ProceduralHit { intersection: u32, closest_hit: u32 },
    TriangleHit { closest_hit: u32, any_hit: u32 },
}

/// A hit-capable group: one that a ray hit can select through the hit
/// region of the binding table.
pub open spec fn is_hit_group(g: ShaderGroup) -> bool {
    g is ProceduralHit || g is TriangleHit
}

/// How many groups of `s` are hit-capable.
pub open spec fn hit_group_count(s: Seq<ShaderGroup>) -> nat
    decreases s.len(),
{
    if s.len() == 0 {
        0
    } else {
        hit_group_count(s.drop_last()) + if is_hit_group(s.last()) {
            1nat
        } else {
            0nat
        }
    }
}

/// The exact name of each entry point.
pub open spec fn spec_entry_point_name(e: EntryPoint) -> Seq<char> {
    match e {
        EntryPoint::RayGeneration => "main_ray_generation"@,
        EntryPoint::Miss => "main_miss"@,
        EntryPoint::SphereIntersection => "sphere_intersection"@,
        EntryPoint::SphereClosestHit => "sphere_closest_hit"@,
        EntryPoint::TriangleClosestHit => "triangle_closest_hit"@,
        EntryPoint::TriangleAnyHit => "triangle_any_hit"@,
    }
}

/// The name under which the shader binary exposes entry point `e`.
pub fn entry_point_name(e: &EntryPoint) -> (r: &'static str)
    ensures
        r@ == spec_entry_point_name(*e),
{
    match e {
        EntryPoint::RayGeneration => "main_ray_generation",
        EntryPoint::Miss => "main_miss",
        EntryPoint::SphereIntersection => "sphere_intersection",
        EntryPoint::SphereClosestHit => "sphere_closest_hit",
        EntryPoint::TriangleClosestHit => "triangle_closest_hit",
        EntryPoint::TriangleAnyHit => "triangle_any_hit",
    }
}

/// The declared stage list, in order: ray generation, miss, the
/// procedural pair (intersection then closest hit), then the triangle
/// pair (closest hit then any hit).
pub open spec fn expected_shader_stages() -> Seq<ShaderStage> {
    seq![
        ShaderStage { stage: ShaderStageKind::RayGeneration, entry: EntryPoint::RayGeneration },
        ShaderStage { stage: ShaderStageKind::Miss, entry: EntryPoint::Miss },
        ShaderStage { stage: ShaderStageKind::Intersection, entry: EntryPoint::SphereIntersection },
        ShaderStage { stage: ShaderStageKind::ClosestHit, entry: EntryPoint::SphereClosestHit },
        ShaderStage { stage: ShaderStageKind::ClosestHit, entry: EntryPoint::TriangleClosestHit },
        ShaderStage { stage: ShaderStageKind::AnyHit, entry: EntryPoint::TriangleAnyHit },
    ]
}

/// The load-bearing group declaration order: [ray-generation, miss,
/// procedural hit, triangle hit].  The binding table is laid out by
/// walking the groups in exactly this sequence.
pub open spec fn standard_shader_groups() -> Seq<ShaderGroup> {
    seq![
        ShaderGroup::General { general: 0 },
        ShaderGroup::General { general: 1 },
        ShaderGroup::ProceduralHit { intersection: 2, closest_hit: 3 },
        ShaderGroup::TriangleHit { closest_hit: 4, any_hit: 5 },
    ]
}

/// The standard declaration order holds exactly two hit-capable groups,
/// the procedural one and the triangle one, standing last and adjacent.
pub proof fn lemma_standard_hit_groups()
    ensures
        hit_group_count(standard_shader_groups()) == 2,
        is_hit_group(standard_shader_groups()[2]),
        is_hit_group(standard_shader_groups()[3]),
        !is_hit_group(standard_shader_groups()[0]),
        !is_hit_group(standard_shader_groups()[1]),
{
    reveal_with_fuel(hit_group_count, 5);
    assert(standard_shader_groups().drop_last() =~= seq![
        ShaderGroup::General { general: 0 },
        ShaderGroup::General { general: 1 },
        ShaderGroup::ProceduralHit { intersection: 2, closest_hit: 3 },
    ]);
    assert(standard_shader_groups().drop_last().drop_last() =~= seq![
        ShaderGroup::General { general: 0 },
        ShaderGroup::General { general: 1 },
    ]);
    assert(standard_shader_groups().drop_last().drop_last().drop_last() =~= seq![
        ShaderGroup::General { general: 0 },
    ]);
    assert(standard_shader_groups().drop_last().drop_last().drop_last().drop_last()
        =~= Seq::<ShaderGroup>::empty());
}

/// The four bindings of the set layout: the structure and the output
/// image for the ray-generation stage, the two mesh buffers for the
/// closest-hit stage.
pub open spec fn expected_descriptor_bindings() -> Seq<DescriptorBinding> {
    seq![
        DescriptorBinding {
            binding: 0,
            descriptor_type: DescriptorType::AccelerationStructure,
            descriptor_count: 1,
            stage_flags: STAGE_RAYGEN,
        },
        DescriptorBinding {
            binding: 1,
            descriptor_type: DescriptorType::StorageImage,
            descriptor_count: 1,
            stage_flags: STAGE_RAYGEN,
        },
        DescriptorBinding {
            binding: 2,
            descriptor_type: DescriptorType::StorageBuffer,
            descriptor_count: 1,
            stage_flags: STAGE_CLOSEST_HIT,
        },
        DescriptorBinding {
            binding: 3,
            descriptor_type: DescriptorType::StorageBuffer,
            descriptor_count: 1,
            stage_flags: STAGE_CLOSEST_HIT,
        },
    ]
}

/// A small push-constant range for per-dispatch scalars, visible to the
/// ray-generation stage.
#[derive(Clone, Copy, PartialEq, Eq, Structural, Debug)]
pub struct PushConstantRange {
    pub offset: u32,
    pub size: u32,
    pub stage_flags: u32,
}

/// The assembled, dispatch-ready pipeline: its handle, the descriptor set
/// layout and the writes that bind it, the declared stages and groups,
/// the push-constant range, and the recursion bound.
pub struct Pipelines {
    pub pipeline: u64,
    pub descriptor_set_layout: Vec<DescriptorBinding>,
    pub descriptor_writes: Vec<DescriptorWrite>,
    pub shader_stages: Vec<ShaderStage>,
    pub shader_groups: Vec<ShaderGroup>,
    pub push_constant_range: PushConstantRange,
    pub max_pipeline_ray_recursion_depth: u32,
}

impl Pipelines {
    /// What assembly guarantees: a non-zero handle and the fixed stage and
    /// group declaration order the binding table depends on.
    pub open spec fn wf(self) -> bool {
        &&& 1 <= self.pipeline
        &&& self.shader_stages@ == expected_shader_stages()
        &&& self.shader_groups@ == standard_shader_groups()
    }

    /// How many groups the pipeline declares.
    pub fn group_count(&self) -> (r: u32)
        requires
            self.wf(),
        ensures
            r == self.shader_groups@.len(),
    {
        self.shader_groups.len() as u32
    }

    /// Assembles the pipeline over a built top-level structure, one mesh
    /// and one output image view: the four-binding descriptor set with
    /// the structure written at binding 0 (descriptor count set to one by
    /// hand), the image at 1 and the mesh buffers at 2 and 3; the six
    /// stages and four groups in their fixed order; a four-byte
    /// ray-generation push-constant range; and recursion depth 0, since
    /// ray generation traces exactly one non-recursive ray.
    pub fn new(
        ctx: &mut DeviceContext,
        tlas: &TopLevelAccelerationStructures,
        mesh: &MeshBuffer,
        target_image_view: u64,
    ) -> (r: Pipelines)
        requires
            old(ctx).wf(),
            tlas.wf(),
            mesh.wf(),
        ensures
            final(ctx).wf(),
            final(ctx).memory_types@ == old(ctx).memory_types@,
            final(ctx).buffer_type_bits == old(ctx).buffer_type_bits,
            final(ctx).next_address == old(ctx).next_address,
            r.wf(),
            r.pipeline == old(ctx).next_handle,
            r.descriptor_set_layout@ == expected_descriptor_bindings(),
            r.descriptor_writes@ == seq![
                DescriptorWrite::AccelerationStructure {
                    binding: 0,
                    structure_handle: tlas.top_level_acceleration_structure_khr,
                    descriptor_count: 1,
                },
                DescriptorWrite::StorageImage { binding: 1, image_view: target_image_view },
                DescriptorWrite::StorageBuffer {
                    binding: 2,
                    buffer_address: mesh.vertex_buffer.device_address,
                },
                DescriptorWrite::StorageBuffer {
                    binding: 3,
                    buffer_address: mesh.index_buffer.device_address,
                },
            ],
            r.push_constant_range == (PushConstantRange {
                offset: 0,
                size: 4,
                stage_flags: STAGE_RAYGEN,
            }),
            r.max_pipeline_ray_recursion_depth == 0,
    {
        let mut descriptor_set_layout: Vec<DescriptorBinding> = Vec::new();
        descriptor_set_layout.push(
            DescriptorBinding {
                binding: 0,
                descriptor_type: DescriptorType::AccelerationStructure,
                descriptor_count: 1,
                stage_flags: STAGE_RAYGEN,
            },
        );
        descriptor_set_layout.push(
            DescriptorBinding {
                binding: 1,
                descriptor_type: DescriptorType::StorageImage,
                descriptor_count: 1,
                stage_flags: STAGE_RAYGEN,
            },
        );
        descriptor_set_layout.push(
            DescriptorBinding {
                binding: 2,
                descriptor_type: DescriptorType::StorageBuffer,
                descriptor_count: 1,
                stage_flags: STAGE_CLOSEST_HIT,
            },
        );
        descriptor_set_layout.push(
            DescriptorBinding {
                binding: 3,
                descriptor_type: DescriptorType::StorageBuffer,
                descriptor_count: 1,
                stage_flags: STAGE_CLOSEST_HIT,
            },
        );
        assert(descriptor_set_layout@ =~= expected_descriptor_bindings());

        let mut descriptor_writes: Vec<DescriptorWrite> = Vec::new();
        descriptor_writes.push(
            DescriptorWrite::AccelerationStructure {
                binding: 0,
                structure_handle: tlas.top_level_acceleration_structure_khr,
                descriptor_count: 1,
            },
        );
        descriptor_writes.push(
            DescriptorWrite::StorageImage { binding: 1, image_view: target_image_view },
        );
        descriptor_writes.push(
            DescriptorWrite::StorageBuffer {
                binding: 2,
                buffer_address: mesh.vertex_buffer.get_buffer_address(),
            },
        );
        descriptor_writes.push(
            DescriptorWrite::StorageBuffer {
                binding: 3,
                buffer_address: mesh.index_buffer.get_buffer_address(),
            },
        );

        let mut shader_stages: Vec<ShaderStage> = Vec::new();
        shader_stages.push(
            ShaderStage { stage: ShaderStageKind::RayGeneration, entry: EntryPoint::RayGeneration },
        );
        shader_stages.push(ShaderStage { stage: ShaderStageKind::Miss, entry: EntryPoint::Miss });
        shader_stages.push(
            ShaderStage {
                stage: ShaderStageKind::Intersection,
                entry: EntryPoint::SphereIntersection,
            },
        );
        shader_stages.push(
            ShaderStage { stage: ShaderStageKind::ClosestHit, entry: EntryPoint::SphereClosestHit },
        );
        shader_stages.push(
            ShaderStage {
                stage: ShaderStageKind::ClosestHit,
                entry: EntryPoint::TriangleClosestHit,
            },
        );
        shader_stages.push(
            ShaderStage { stage: ShaderStageKind::AnyHit, entry: EntryPoint::TriangleAnyHit },
        );
        assert(shader_stages@ =~= expected_shader_stages());

        let mut shader_groups: Vec<ShaderGroup> = Vec::new();
        shader_groups.push(ShaderGroup::General { general: 0 });
        shader_groups.push(ShaderGroup::General { general: 1 });
        shader_groups.push(ShaderGroup::ProceduralHit { intersection: 2, closest_hit: 3 });
        shader_groups.push(ShaderGroup::TriangleHit { closest_hit: 4, any_hit: 5 });
        assert(shader_groups@ =~= standard_shader_groups());

        let pipeline = ctx.alloc_handle();

        let r = Pipelines {
            pipeline,
            descriptor_set_layout,
            descriptor_writes,
            shader_stages,
            shader_groups,
            push_constant_range: PushConstantRange { offset: 0, size: 4, stage_flags: STAGE_RAYGEN },
            max_pipeline_ray_recursion_depth: 0,
        };
        assert(r.descriptor_writes@ =~= seq![
            DescriptorWrite::AccelerationStructure {
                binding: 0,
                structure_handle: tlas.top_level_acceleration_structure_khr,
                descriptor_count: 1,
            },
            DescriptorWrite::StorageImage { binding: 1, image_view: target_image_view },
            DescriptorWrite::StorageBuffer {
                binding: 2,
                buffer_address: mesh.vertex_buffer.device_address,
            },
            DescriptorWrite::StorageBuffer {
                binding: 3,
                buffer_address: mesh.index_buffer.device_address,
            },
        ]);
        r
    }
}

} // verus!
