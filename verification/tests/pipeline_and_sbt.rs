use cotton::commands::BuildSizes;
use cotton::device::DeviceContext;
use cotton::error::BuildError;
use cotton::flags::MEMORY_DEVICE_LOCAL;
use cotton::flags::MEMORY_HOST_COHERENT;
use cotton::flags::MEMORY_HOST_VISIBLE;
use cotton::flags::STAGE_CLOSEST_HIT;
use cotton::flags::STAGE_RAYGEN;
use cotton::mesh_buffer::MeshBuffer;
use cotton::mesh_buffer::Vertex;
use cotton::pipelines::entry_point_name;
use cotton::pipelines::DescriptorType;
use cotton::pipelines::DescriptorWrite;
use cotton::pipelines::EntryPoint;
use cotton::pipelines::Pipelines;
use cotton::pipelines::ShaderGroup;
use cotton::pipelines::ShaderStageKind;
use cotton::scene::InstancePlacement;
use cotton::scene::Scene;
use cotton::shader_binding_table::trace_rays_command;
use cotton::shader_binding_table::ShaderBindingTable;
use cotton::top_level_acceleration_structures::TopLevelAccelerationStructures;
use cotton::triangle_bottom_level_acceleration_structure::TriangleBottomLevelAccelerationStructure;

fn sample_context() -> DeviceContext {
    let memory_types = vec![
        MEMORY_DEVICE_LOCAL,
        MEMORY_HOST_VISIBLE | MEMORY_HOST_COHERENT | MEMORY_DEVICE_LOCAL,
    ];
    DeviceContext::new(memory_types, 0b11)
}

fn vertex(px: f32, py: f32, pz: f32) -> Vertex {
    Vertex {
        position: [px.to_bits(), py.to_bits(), pz.to_bits()],
        normal: [0.0f32.to_bits(), 0.0f32.to_bits(), 1.0f32.to_bits()],
    }
}

fn identity_transform() -> [u32; 12] {
    let one = 1.0f32.to_bits();
    [one, 0, 0, 0, 0, one, 0, 0, 0, 0, one, 0]
}

struct BuiltChain {
    ctx: DeviceContext,
    mesh: MeshBuffer,
    tlas: TopLevelAccelerationStructures,
    pipeline: Pipelines,
}

fn build_chain(target_image_view: u64) -> BuiltChain {
    let mut ctx = sample_context();
    let vertices = vec![vertex(1.0, -1.0, 0.0), vertex(0.0, 1.0, 0.0), vertex(-1.0, -1.0, 0.0)];
    let mesh = MeshBuffer::new(&mut ctx, &vertices, &vec![0, 1, 2]).unwrap();
    let blas_sizes = BuildSizes { acceleration_structure_size: 4096, build_scratch_size: 1024 };
    let blas = TriangleBottomLevelAccelerationStructure::new(&mut ctx, &mesh, blas_sizes).unwrap();
    let placements = vec![InstancePlacement {
        transform: identity_transform(),
        blas_address: blas.get_device_address_info(),
    }];
    let scene = Scene::build_scene(&mut ctx, &placements).unwrap();
    let tlas_sizes = BuildSizes { acceleration_structure_size: 2048, build_scratch_size: 512 };
    let tlas = TopLevelAccelerationStructures::new(&mut ctx, &scene, tlas_sizes).unwrap();
    let pipeline = Pipelines::new(&mut ctx, &tlas, &mesh, target_image_view);
    BuiltChain { ctx, mesh, tlas, pipeline }
}

fn sample_handles(handle_size: usize) -> Vec<u8> {
    let mut handles = Vec::new();
    for i in 0..(4 * handle_size) {
        handles.push((i % 251) as u8);
    }
    handles
}

#[test]
fn entry_point_names_are_the_well_known_ones() {
    assert_eq!(entry_point_name(&EntryPoint::RayGeneration), "main_ray_generation");
    assert_eq!(entry_point_name(&EntryPoint::Miss), "main_miss");
    assert_eq!(entry_point_name(&EntryPoint::SphereIntersection), "sphere_intersection");
    assert_eq!(entry_point_name(&EntryPoint::SphereClosestHit), "sphere_closest_hit");
    assert_eq!(entry_point_name(&EntryPoint::TriangleClosestHit), "triangle_closest_hit");
    assert_eq!(entry_point_name(&EntryPoint::TriangleAnyHit), "triangle_any_hit");
}

#[test]
fn pipeline_declares_groups_in_the_fixed_order() {
    let chain = build_chain(7);
    let groups = &chain.pipeline.shader_groups;
    assert_eq!(groups.len(), 4);
    assert_eq!(groups[0], ShaderGroup::General { general: 0 });
    assert_eq!(groups[1], ShaderGroup::General { general: 1 });
    assert_eq!(groups[2], ShaderGroup::ProceduralHit { intersection: 2, closest_hit: 3 });
    assert_eq!(groups[3], ShaderGroup::TriangleHit { closest_hit: 4, any_hit: 5 });
}

#[test]
fn pipeline_declares_six_stages_in_order() {
    let chain = build_chain(7);
    let stages = &chain.pipeline.shader_stages;
    assert_eq!(stages.len(), 6);
    assert_eq!(stages[0].stage, ShaderStageKind::RayGeneration);
    assert_eq!(stages[1].stage, ShaderStageKind::Miss);
    assert_eq!(stages[2].stage, ShaderStageKind::Intersection);
    assert_eq!(stages[3].stage, ShaderStageKind::ClosestHit);
    assert_eq!(stages[4].stage, ShaderStageKind::ClosestHit);
    assert_eq!(stages[5].stage, ShaderStageKind::AnyHit);
}

#[test]
fn pipeline_binds_the_four_descriptors() {
    let chain = build_chain(42);
    let layout = &chain.pipeline.descriptor_set_layout;
    assert_eq!(layout.len(), 4);
    assert_eq!(layout[0].binding, 0);
    assert_eq!(layout[0].descriptor_type, DescriptorType::AccelerationStructure);
    assert_eq!(layout[0].stage_flags, STAGE_RAYGEN);
    assert_eq!(layout[1].descriptor_type, DescriptorType::StorageImage);
    assert_eq!(layout[2].descriptor_type, DescriptorType::StorageBuffer);
    assert_eq!(layout[2].stage_flags, STAGE_CLOSEST_HIT);
    assert_eq!(layout[3].binding, 3);

    let writes = &chain.pipeline.descriptor_writes;
    assert_eq!(writes.len(), 4);
    assert_eq!(
        writes[0],
        DescriptorWrite::AccelerationStructure {
            binding: 0,
            structure_handle: chain.tlas.top_level_acceleration_structure_khr,
            descriptor_count: 1,
        }
    );
    assert_eq!(writes[1], DescriptorWrite::StorageImage { binding: 1, image_view: 42 });
    assert_eq!(
        writes[2],
        DescriptorWrite::StorageBuffer {
            binding: 2,
            buffer_address: chain.mesh.vertex_buffer.get_buffer_address(),
        }
    );
    assert_eq!(
        writes[3],
        DescriptorWrite::StorageBuffer {
            binding: 3,
            buffer_address: chain.mesh.index_buffer.get_buffer_address(),
        }
    );
}

#[test]
fn pipeline_uses_a_four_byte_push_constant_and_no_recursion() {
    let chain = build_chain(7);
    assert_eq!(chain.pipeline.push_constant_range.offset, 0);
    assert_eq!(chain.pipeline.push_constant_range.size, 4);
    assert_eq!(chain.pipeline.push_constant_range.stage_flags, STAGE_RAYGEN);
    assert_eq!(chain.pipeline.max_pipeline_ray_recursion_depth, 0);
    assert_ne!(chain.pipeline.pipeline, 0);
}

#[test]
fn sbt_regions_match_the_declaration_order() {
    let mut chain = build_chain(7);
    let handles = sample_handles(32);
    let sbt =
        ShaderBindingTable::new(&mut chain.ctx, &chain.pipeline, 32, 16, &handles).unwrap();

    let base = sbt.buffer.get_buffer_address();
    assert_eq!(sbt.raygen_region.device_address, base);
    assert_eq!(sbt.raygen_region.size, 32);
    assert_eq!(sbt.raygen_region.stride, 32);
    assert_eq!(sbt.miss_region.device_address, base + 32);
    assert_eq!(sbt.miss_region.size, 32);
    assert_eq!(sbt.hit_region.device_address, base + 64);
    assert_eq!(sbt.hit_region.size, 64);
    assert!(sbt.hit_region.stride >= 32);
    assert_eq!(sbt.hit_region.stride % 16, 0);
    assert_eq!(sbt.callable_region.size, 0);
    assert_eq!(sbt.buffer.size, 128);
    assert_eq!(sbt.buffer.mapped_bytes(), &handles);
}

#[test]
fn sbt_rejects_a_zero_handle_size() {
    let mut chain = build_chain(7);
    let result = ShaderBindingTable::new(&mut chain.ctx, &chain.pipeline, 0, 16, &vec![]);
    assert!(matches!(result, Err(BuildError::MisalignedHandleSize)));
}

#[test]
fn sbt_rejects_a_handle_size_off_alignment() {
    let mut chain = build_chain(7);
    let handles = sample_handles(30);
    let result = ShaderBindingTable::new(&mut chain.ctx, &chain.pipeline, 30, 16, &handles);
    assert!(matches!(result, Err(BuildError::MisalignedHandleSize)));
}

#[test]
fn sbt_rejects_a_short_handle_blob() {
    let mut chain = build_chain(7);
    let handles = vec![0u8; 3 * 32];
    let result = ShaderBindingTable::new(&mut chain.ctx, &chain.pipeline, 32, 16, &handles);
    assert!(matches!(result, Err(BuildError::InvalidHandleData)));
}

#[test]
fn object_handles_along_the_chain_are_distinct() {
    let chain = build_chain(7);
    assert_ne!(chain.tlas.top_level_acceleration_structure_khr, chain.pipeline.pipeline);
    assert_ne!(chain.tlas.top_level_acceleration_structure_khr, 0);
    assert_ne!(chain.pipeline.pipeline, 0);
}

#[test]
fn end_to_end_chain_yields_dispatch_inputs_for_one_ray() {
    let mut chain = build_chain(1);
    let handles = sample_handles(32);
    let sbt =
        ShaderBindingTable::new(&mut chain.ctx, &chain.pipeline, 32, 32, &handles).unwrap();
    let command = trace_rays_command(&chain.pipeline, &sbt, 1, 1);

    assert_eq!(command.width, 1);
    assert_eq!(command.height, 1);
    assert_eq!(command.depth, 1);
    assert_eq!(command.pipeline, chain.pipeline.pipeline);
    assert_ne!(command.pipeline, 0);
    assert_ne!(command.raygen_region.device_address, 0);
    assert_ne!(command.miss_region.device_address, 0);
    assert_ne!(command.hit_region.device_address, 0);
    assert_eq!(command.raygen_region.size, 32);
    assert_eq!(command.hit_region.size, 64);
    assert_ne!(chain.tlas.top_level_acceleration_structure_khr, 0);
}
